//! Soulbound scholarship credentials: the admin mints a credential to a
//! scholar, may later revoke it with a reason, and no credential ever moves
//! to another owner.
use vstd::prelude::*;

use crate::{outcome, outcome_with, AccountId};

verus! {

#[derive(Clone, Copy, Debug, PartialEq, Eq, Structural)]
pub enum ScholarNFTError {
    AlreadyInitialized,
    NotInitialized,
    Unauthorized,
    TokenNotFound,
    TokenRevoked,
    Soulbound,
}

/// What the contract announces to the outside world.
#[derive(Clone, Copy, Debug, PartialEq, Eq, Structural)]
pub enum NftEvent {
    Initialized { admin: AccountId },
    Minted { token_id: u64, owner: AccountId },
    Revoked { token_id: u64 },
}

pub struct CredentialModel {
    pub owner: AccountId,
    pub metadata_uri: Seq<char>,
    pub revocation: Option<Seq<char>>,
}

/// The ledger of credentials: token `id` is `tokens[id - 1]`, so ids run
/// from 1 without gaps.
#[verifier::ext_equal]
pub struct ScholarNftModel {
    pub admin: Option<AccountId>,
    pub tokens: Seq<CredentialModel>,
    pub events: Seq<NftEvent>,
}

impl ScholarNftModel {
    pub open spec fn is_minted(self, token_id: u64) -> bool {
        1 <= token_id <= self.tokens.len()
    }

    pub open spec fn credential(self, token_id: u64) -> CredentialModel {
        self.tokens[token_id - 1]
    }

    pub open spec fn is_revoked(self, token_id: u64) -> bool {
        self.is_minted(token_id) && self.credential(token_id).revocation is Some
    }

    pub open spec fn initialize(self, admin: AccountId) -> Result<Self, ScholarNFTError> {
        if self.admin is Some {
            Err(ScholarNFTError::AlreadyInitialized)
        } else {
            Ok(
                ScholarNftModel {
                    admin: Some(admin),
                    events: self.events.push(NftEvent::Initialized { admin }),
                    ..self
                },
            )
        }
    }

    /// The admin issues the next credential, numbered one past the last.
    pub open spec fn mint(self, caller: AccountId, to: AccountId, metadata_uri: Seq<char>) -> Result<
        (Self, u64),
        ScholarNFTError,
    > {
        match self.admin {
            None => Err(ScholarNFTError::NotInitialized),
            Some(admin) => {
                if caller != admin {
                    Err(ScholarNFTError::Unauthorized)
                } else {
                    let id = (self.tokens.len() + 1) as u64;
                    Ok(
                        (
                            ScholarNftModel {
                                tokens: self.tokens.push(
                                    CredentialModel { owner: to, metadata_uri, revocation: None },
                                ),
                                events: self.events.push(NftEvent::Minted { token_id: id, owner: to }),
                                ..self
                            },
                            id,
                        ),
                    )
                }
            },
        }
    }

    pub open spec fn owner_of(self, token_id: u64) -> Result<AccountId, ScholarNFTError> {
        if !self.is_minted(token_id) {
            Err(ScholarNFTError::TokenNotFound)
        } else if self.is_revoked(token_id) {
            Err(ScholarNFTError::TokenRevoked)
        } else {
            Ok(self.credential(token_id).owner)
        }
    }

    pub open spec fn token_uri(self, token_id: u64) -> Result<Seq<char>, ScholarNFTError> {
        if !self.is_minted(token_id) {
            Err(ScholarNFTError::TokenNotFound)
        } else {
            Ok(self.credential(token_id).metadata_uri)
        }
    }

    /// A credential counts while it exists and has not been revoked.
    pub open spec fn has_credential(self, token_id: u64) -> bool {
        self.is_minted(token_id) && !self.is_revoked(token_id)
    }

    pub open spec fn revocation_reason(self, token_id: u64) -> Option<Seq<char>> {
        if self.is_minted(token_id) {
            self.credential(token_id).revocation
        } else {
            None
        }
    }

    /// The admin withdraws a live credential, recording why.
    pub open spec fn revoke(self, caller: AccountId, token_id: u64, reason: Seq<char>) -> Result<
        Self,
        ScholarNFTError,
    > {
        match self.admin {
            None => Err(ScholarNFTError::NotInitialized),
            Some(admin) => {
                if caller != admin {
                    Err(ScholarNFTError::Unauthorized)
                } else if !self.is_minted(token_id) {
                    Err(ScholarNFTError::TokenNotFound)
                } else if self.is_revoked(token_id) {
                    Err(ScholarNFTError::TokenRevoked)
                } else {
                    let c = self.credential(token_id);
                    Ok(
                        ScholarNftModel {
                            tokens: self.tokens.update(
                                token_id - 1,
                                CredentialModel { revocation: Some(reason), ..c },
                            ),
                            events: self.events.push(NftEvent::Revoked { token_id }),
                            ..self
                        },
                    )
                }
            },
        }
    }
}

struct Credential {
    owner: AccountId,
    metadata_uri: String,
    revocation_reason: Option<String>,
}

impl View for Credential {
    type V = CredentialModel;

    closed spec fn view(&self) -> CredentialModel {
        CredentialModel {
            owner: self.owner,
            metadata_uri: self.metadata_uri@,
            revocation: match self.revocation_reason {
                Some(r) => Some(r@),
                None => None,
            },
        }
    }
}

pub struct ScholarNFT {
    admin: Option<AccountId>,
    tokens: Vec<Credential>,
    events: Vec<NftEvent>,
}

impl View for ScholarNFT {
    type V = ScholarNftModel;

    closed spec fn view(&self) -> ScholarNftModel {
        ScholarNftModel {
            admin: self.admin,
            tokens: self.tokens@.map_values(|c: Credential| c@),
            events: self.events@,
        }
    }
}

impl ScholarNFT {
    /// A contract that has not been initialized and holds no credentials.
    pub fn new() -> (c: Self)
        ensures
            c@.admin is None,
            c@.tokens == Seq::<CredentialModel>::empty(),
            c@.events == Seq::<NftEvent>::empty(),
    {
        let c = ScholarNFT { admin: None, tokens: Vec::new(), events: Vec::new() };
        assert(c@.tokens =~= Seq::<CredentialModel>::empty());
        c
    }

    pub fn initialize(&mut self, admin: AccountId) -> (r: Result<(), ScholarNFTError>)
        ensures
            outcome(old(self)@.initialize(admin), old(self)@, final(self)@, r),
    {
        if self.admin.is_some() {
            return Err(ScholarNFTError::AlreadyInitialized);
        }
        self.admin = Some(admin);
        self.events.push(NftEvent::Initialized { admin });
        assert(self@ =~= old(self)@.initialize(admin).unwrap());
        Ok(())
    }

    pub fn admin(&self) -> (r: Option<AccountId>)
        ensures
            r == self@.admin,
    {
        self.admin
    }

    /// The number of credentials ever minted.
    pub fn total_supply(&self) -> (n: u64)
        ensures
            n == self@.tokens.len(),
    {
        self.tokens.len() as u64
    }

    pub fn events(&self) -> (r: &Vec<NftEvent>)
        ensures
            r@ == self@.events,
    {
        &self.events
    }

    pub fn mint(&mut self, caller: AccountId, to: AccountId, metadata_uri: String) -> (r: Result<
        u64,
        ScholarNFTError,
    >)
        requires
            old(self)@.tokens.len() < u64::MAX,
        ensures
            outcome_with(
                old(self)@.mint(caller, to, metadata_uri@),
                old(self)@,
                final(self)@,
                r,
            ),
    {
        match self.admin {
            None => {
                return Err(ScholarNFTError::NotInitialized);
            },
            Some(admin) => {
                if caller != admin {
                    return Err(ScholarNFTError::Unauthorized);
                }
            },
        }
        let token_id = self.tokens.len() as u64 + 1;
        let ghost uri = metadata_uri@;
        self.tokens.push(Credential { owner: to, metadata_uri, revocation_reason: None });
        self.events.push(NftEvent::Minted { token_id, owner: to });
        assert(self@ =~= old(self)@.mint(caller, to, uri).unwrap().0);
        Ok(token_id)
    }

    pub fn owner_of(&self, token_id: u64) -> (r: Result<AccountId, ScholarNFTError>)
        ensures
            r == self@.owner_of(token_id),
    {
        if token_id == 0 || token_id > self.tokens.len() as u64 {
            return Err(ScholarNFTError::TokenNotFound);
        }
        let c = &self.tokens[(token_id - 1) as usize];
        assert(c@ == self@.credential(token_id));
        if c.revocation_reason.is_some() {
            Err(ScholarNFTError::TokenRevoked)
        } else {
            Ok(c.owner)
        }
    }

    pub fn token_uri(&self, token_id: u64) -> (r: Result<String, ScholarNFTError>)
        ensures
            match self@.token_uri(token_id) {
                Ok(uri) => r matches Ok(s) && s@ == uri,
                Err(e) => r == Err::<String, ScholarNFTError>(e),
            },
    {
        if token_id == 0 || token_id > self.tokens.len() as u64 {
            return Err(ScholarNFTError::TokenNotFound);
        }
        let c = &self.tokens[(token_id - 1) as usize];
        assert(c@ == self@.credential(token_id));
        Ok(c.metadata_uri.clone())
    }

    pub fn has_credential(&self, token_id: u64) -> (r: bool)
        ensures
            r == self@.has_credential(token_id),
    {
        if token_id == 0 || token_id > self.tokens.len() as u64 {
            return false;
        }
        let c = &self.tokens[(token_id - 1) as usize];
        assert(c@ == self@.credential(token_id));
        c.revocation_reason.is_none()
    }

    pub fn get_revocation_reason(&self, token_id: u64) -> (r: Option<String>)
        ensures
            match self@.revocation_reason(token_id) {
                Some(reason) => r matches Some(s) && s@ == reason,
                None => r is None,
            },
    {
        if token_id == 0 || token_id > self.tokens.len() as u64 {
            return None;
        }
        let c = &self.tokens[(token_id - 1) as usize];
        assert(c@ == self@.credential(token_id));
        match &c.revocation_reason {
            Some(reason) => Some(reason.clone()),
            None => None,
        }
    }

    pub fn revoke(&mut self, caller: AccountId, token_id: u64, reason: String) -> (r: Result<
        (),
        ScholarNFTError,
    >)
        ensures
            outcome(old(self)@.revoke(caller, token_id, reason@), old(self)@, final(self)@, r),
    {
        match self.admin {
            None => {
                return Err(ScholarNFTError::NotInitialized);
            },
            Some(admin) => {
                if caller != admin {
                    return Err(ScholarNFTError::Unauthorized);
                }
            },
        }
        if token_id == 0 || token_id > self.tokens.len() as u64 {
            return Err(ScholarNFTError::TokenNotFound);
        }
        let i = (token_id - 1) as usize;
        assert(self.tokens@[i as int]@ == old(self)@.credential(token_id));
        if self.tokens[i].revocation_reason.is_some() {
            return Err(ScholarNFTError::TokenRevoked);
        }
        let ghost why = reason@;
        let owner = self.tokens[i].owner;
        let metadata_uri = self.tokens[i].metadata_uri.clone();
        self.tokens.set(i, Credential { owner, metadata_uri, revocation_reason: Some(reason) });
        self.events.push(NftEvent::Revoked { token_id });
        assert(self@ =~= old(self)@.revoke(caller, token_id, why).unwrap());
        Ok(())
    }

    /// Credentials are bound to their scholar: every transfer is refused and
    /// nothing changes.
    pub fn transfer(&mut self, from: AccountId, to: AccountId, token_id: u64) -> (r: Result<
        (),
        ScholarNFTError,
    >)
        ensures
            r == Err::<(), ScholarNFTError>(ScholarNFTError::Soulbound),
            final(self)@ == old(self)@,
    {
        Err(ScholarNFTError::Soulbound)
    }
}

/// Credentials are numbered 1, 2, 3, ... in the order they are minted.
pub proof fn law_mint_ids_are_sequential(
    s: ScholarNftModel,
    caller: AccountId,
    a: AccountId,
    uri_a: Seq<char>,
    b: AccountId,
    uri_b: Seq<char>,
)
    requires
        s.mint(caller, a, uri_a) is Ok,
        s.tokens.len() + 2 <= u64::MAX,
    ensures
        s.mint(caller, a, uri_a).unwrap().1 == s.tokens.len() + 1,
        ({
            let t = s.mint(caller, a, uri_a).unwrap().0;
            t.mint(caller, b, uri_b) is Ok && t.mint(caller, b, uri_b).unwrap().1 == s.tokens.len()
                + 2
        }),
{
}

/// A freshly minted credential belongs to its scholar, carries its metadata
/// and counts as held.
pub proof fn law_mint_then_read(
    s: ScholarNftModel,
    caller: AccountId,
    to: AccountId,
    uri: Seq<char>,
)
    requires
        s.mint(caller, to, uri) is Ok,
        s.tokens.len() < u64::MAX,
    ensures
        ({
            let (t, id) = s.mint(caller, to, uri).unwrap();
            &&& t.owner_of(id) == Ok::<AccountId, ScholarNFTError>(to)
            &&& t.token_uri(id) == Ok::<Seq<char>, ScholarNFTError>(uri)
            &&& t.has_credential(id)
            &&& t.revocation_reason(id) is None
        }),
{
}

/// After a revocation the credential no longer counts, its owner can no
/// longer be read, and the reason is kept.
pub proof fn law_revoke_then_read(
    s: ScholarNftModel,
    caller: AccountId,
    token_id: u64,
    reason: Seq<char>,
)
    requires
        s.revoke(caller, token_id, reason) is Ok,
    ensures
        ({
            let t = s.revoke(caller, token_id, reason).unwrap();
            &&& !t.has_credential(token_id)
            &&& t.owner_of(token_id) == Err::<AccountId, ScholarNFTError>(
                ScholarNFTError::TokenRevoked,
            )
            &&& t.revocation_reason(token_id) == Some(reason)
            &&& t.token_uri(token_id) == s.token_uri(token_id)
        }),
{
}

/// The admin revoking a credential that was never minted is told it does not
/// exist.
pub proof fn law_revoke_unknown_token(s: ScholarNftModel, token_id: u64, reason: Seq<char>)
    requires
        s.admin is Some,
        !s.is_minted(token_id),
    ensures
        s.revoke(s.admin.unwrap(), token_id, reason) == Err::<ScholarNftModel, ScholarNFTError>(
            ScholarNFTError::TokenNotFound,
        ),
{
}

/// Ownership is permanent and revocation is final: no mint or revocation
/// changes the owner of an existing credential or lifts a revocation.
pub proof fn law_soulbound(
    s: ScholarNftModel,
    caller: AccountId,
    to: AccountId,
    uri: Seq<char>,
    token_id: u64,
    reason: Seq<char>,
    id: u64,
)
    requires
        s.is_minted(id),
    ensures
        s.mint(caller, to, uri) matches Ok((t, _)) ==> t.is_minted(id) && t.credential(id).owner
            == s.credential(id).owner && (s.is_revoked(id) ==> t.is_revoked(id)),
        s.revoke(caller, token_id, reason) matches Ok(t) ==> t.is_minted(id) && t.credential(id).owner
            == s.credential(id).owner && (s.is_revoked(id) ==> t.is_revoked(id)),
{
}

/// A credential keeps its owner, metadata and standing however many
/// credentials are minted after it: after minting to `a` with `uri_a` and then
/// to `b` with `uri_b`, the first credential still belongs to `a` with
/// `uri_a`, and the second to `b` with `uri_b`.
pub proof fn law_two_mints_then_read(
    s: ScholarNftModel,
    caller: AccountId,
    a: AccountId,
    uri_a: Seq<char>,
    b: AccountId,
    uri_b: Seq<char>,
)
    requires
        s.mint(caller, a, uri_a) is Ok,
        s.tokens.len() + 2 <= u64::MAX,
    ensures
        ({
            let (t, first) = s.mint(caller, a, uri_a).unwrap();
            &&& t.mint(caller, b, uri_b) is Ok
            &&& ({
                let (w, second) = t.mint(caller, b, uri_b).unwrap();
                &&& first != second
                &&& w.owner_of(first) == Ok::<AccountId, ScholarNFTError>(a)
                &&& w.token_uri(first) == Ok::<Seq<char>, ScholarNFTError>(uri_a)
                &&& w.has_credential(first)
                &&& w.owner_of(second) == Ok::<AccountId, ScholarNFTError>(b)
                &&& w.token_uri(second) == Ok::<Seq<char>, ScholarNFTError>(uri_b)
                &&& w.has_credential(second)
            })
        }),
{
}

/// Minting a credential changes nothing that can be read of any credential
/// minted before it.
pub proof fn law_mint_keeps_earlier_credentials(
    s: ScholarNftModel,
    caller: AccountId,
    to: AccountId,
    uri: Seq<char>,
    id: u64,
)
    requires
        s.is_minted(id),
        s.mint(caller, to, uri) is Ok,
    ensures
        ({
            let t = s.mint(caller, to, uri).unwrap().0;
            &&& t.owner_of(id) == s.owner_of(id)
            &&& t.token_uri(id) == s.token_uri(id)
            &&& t.has_credential(id) == s.has_credential(id)
            &&& t.revocation_reason(id) == s.revocation_reason(id)
        }),
{
}

/// Revoking one credential changes nothing that can be read of any other.
pub proof fn law_revoke_keeps_other_credentials(
    s: ScholarNftModel,
    caller: AccountId,
    token_id: u64,
    reason: Seq<char>,
    other: u64,
)
    requires
        s.revoke(caller, token_id, reason) is Ok,
        other != token_id,
    ensures
        ({
            let t = s.revoke(caller, token_id, reason).unwrap();
            &&& t.owner_of(other) == s.owner_of(other)
            &&& t.token_uri(other) == s.token_uri(other)
            &&& t.has_credential(other) == s.has_credential(other)
            &&& t.revocation_reason(other) == s.revocation_reason(other)
        }),
{
}

/// When each call succeeds: a first initialization; a mint by the admin; a
/// revocation by the admin of a minted credential not yet revoked; reading the
/// owner of a minted, unrevoked credential; reading the metadata of any minted
/// credential.
pub proof fn law_nft_success(
    s: ScholarNftModel,
    caller: AccountId,
    to: AccountId,
    uri: Seq<char>,
    token_id: u64,
    reason: Seq<char>,
)
    ensures
        s.admin is None ==> s.initialize(caller) is Ok,
        s.admin == Some(caller) ==> s.mint(caller, to, uri) is Ok,
        s.admin == Some(caller) && 1 <= token_id <= s.tokens.len()
            && s.tokens[token_id - 1].revocation is None ==> s.revoke(
            caller,
            token_id,
            reason,
        ) is Ok,
        1 <= token_id <= s.tokens.len() && s.tokens[token_id - 1].revocation is None ==> s.owner_of(
            token_id,
        ) == Ok::<AccountId, ScholarNFTError>(s.tokens[token_id - 1].owner),
        1 <= token_id <= s.tokens.len() ==> s.token_uri(token_id) == Ok::<
            Seq<char>,
            ScholarNFTError,
        >(s.tokens[token_id - 1].metadata_uri),
        s.mint(caller, to, uri) is Ok ==> s.admin == Some(caller),
        s.revoke(caller, token_id, reason) is Ok ==> s.admin == Some(caller) && 1 <= token_id
            <= s.tokens.len() && s.tokens[token_id - 1].revocation is None,
{
}

} // verus!
