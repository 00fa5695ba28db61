//! The rules of the token registry: who may mint, move, burn and lock.
//!
//! The registry's tables live with the host. Each rule here takes what the
//! tables hold for one class or token, a [`TokenEntry`], and says whether the
//! call goes through and what the tables hold afterwards.

use vstd::prelude::*;
use crate::primitives::{AccountId, ClassId, TokenId, Token};
use crate::dispatch::{DispatchError, RawOrigin, ensure_signed, signer};

verus! {

/// What a token carries besides its owner.
#[derive(Clone, Copy, Debug, PartialEq, Eq, Structural)]
pub struct TokenData {
    /// A locked token can be neither moved nor burned.
    pub locked: bool,
}

/// What a class carries besides its owner.
pub type ClassData = u32;

/// A class for the host to create.
#[derive(Debug, PartialEq, Eq)]
pub struct NewClass {
    pub owner: AccountId,
    pub metadata: Vec<u8>,
    pub data: ClassData,
}

/// A token for the host to mint.
#[derive(Debug, PartialEq, Eq)]
pub struct NewToken {
    pub owner: AccountId,
    pub class_id: ClassId,
    pub metadata: Vec<u8>,
    pub data: TokenData,
}

/// What the registry reads of a class.
#[derive(Clone, Copy, Debug, PartialEq, Eq, Structural)]
pub struct ClassInfo {
    /// The account that may mint in the class and destroy it.
    pub owner: AccountId,
    /// How many tokens of the class exist.
    pub total_issuance: TokenId,
}

/// What the registry reads of a token.
#[derive(Clone, Copy, Debug, PartialEq, Eq, Structural)]
pub struct TokenInfo {
    /// The account that holds the token.
    pub owner: AccountId,
    /// The lock flag.
    pub data: TokenData,
}

/// What the registry holds under one token id: the class, if there is one, and
/// the token, if there is one.
#[derive(Clone, Copy, Debug, PartialEq, Eq, Structural)]
pub struct TokenEntry {
    pub class: Option<ClassInfo>,
    pub token: Option<TokenInfo>,
}

/// Why the registry refuses a call.
#[derive(Clone, Copy, Debug, PartialEq, Eq, Structural)]
pub enum Error {
    /// There is no such class.
    ClassNotFound,
    /// There is no such token.
    TokenNotFound,
    /// The caller does not own what the call is about.
    NoPermission,
    /// The class still has tokens.
    CannotDestroyClass,
    /// The token is locked.
    TokenLocked,
}

/// What the registry reports of a call that went through.
#[derive(Clone, Copy, Debug, PartialEq, Eq, Structural)]
pub enum Event {
    NFTTokenClassCreated(AccountId, ClassId),
    NFTTokenMinted(AccountId, ClassId, TokenId),
    NFTTokenMintedLockToggled(AccountId, ClassId, TokenId, bool),
    NFTTokenTransferred(AccountId, AccountId, ClassId, TokenId),
    NFTTokenBurned(AccountId, TokenId),
    NFTTokenClassDestroyed(AccountId, ClassId),
}

impl TokenEntry {
    /// An entry for an id under which the registry holds nothing.
    pub open spec fn absent() -> TokenEntry {
        TokenEntry { class: None, token: None }
    }

    /// Whether `account` holds the token.
    pub open spec fn owned_by(self, account: AccountId) -> bool {
        self.token matches Some(t) && t.owner == account
    }

    /// Whether the token exists and is locked.
    pub open spec fn locked(self) -> bool {
        self.token matches Some(t) && t.data.locked
    }

    /// The entry with the token's lock flag set to `locked`, where there is a
    /// token.
    pub open spec fn with_lock(self, locked: bool) -> TokenEntry {
        match self.token {
            Some(t) => TokenEntry {
                class: self.class,
                token: Some(TokenInfo { owner: t.owner, data: TokenData { locked } }),
            },
            None => self,
        }
    }

    /// The entry with the token handed to `owner`, where there is a token.
    pub open spec fn with_owner(self, owner: AccountId) -> TokenEntry {
        match self.token {
            Some(t) => TokenEntry {
                class: self.class,
                token: Some(TokenInfo { owner, data: t.data }),
            },
            None => self,
        }
    }
}

/// Whether the lock flag of a token may be flipped on behalf of `account`:
/// the class has to exist, and the token, where it exists, has to be
/// `account`'s.
pub open spec fn toggle_lock_check(account: AccountId, entry: TokenEntry) -> Result<(), Error> {
    if entry.class is None {
        Err(Error::ClassNotFound)
    } else if entry.token is Some && !entry.owned_by(account) {
        Err(Error::NoPermission)
    } else {
        Ok(())
    }
}

/// The entry after the lock flag was flipped.
pub open spec fn toggled(entry: TokenEntry) -> TokenEntry {
    entry.with_lock(!entry.locked())
}

/// Whether `sender` may move or burn a token: class and token have to exist,
/// the token has to be `sender`'s and must not be locked.
pub open spec fn holder_check(sender: AccountId, entry: TokenEntry) -> Result<(), Error> {
    if entry.class is None {
        Err(Error::ClassNotFound)
    } else if entry.token is None {
        Err(Error::TokenNotFound)
    } else if !entry.owned_by(sender) {
        Err(Error::NoPermission)
    } else if entry.locked() {
        Err(Error::TokenLocked)
    } else {
        Ok(())
    }
}

/// Whether `sender` may act for a class: it has to exist and be `sender`'s.
pub open spec fn class_owner_check(sender: AccountId, class: Option<ClassInfo>) -> Result<
    (),
    Error,
> {
    match class {
        None => Err(Error::ClassNotFound),
        Some(c) => if c.owner != sender {
            Err(Error::NoPermission)
        } else {
            Ok(())
        },
    }
}

/// Whether `sender` may destroy a class: it has to be `sender`'s, and empty.
pub open spec fn destroy_class_check(sender: AccountId, class: Option<ClassInfo>) -> Result<
    (),
    Error,
> {
    match class {
        None => Err(Error::ClassNotFound),
        Some(c) => if c.owner != sender {
            Err(Error::NoPermission)
        } else if c.total_issuance != 0 {
            Err(Error::CannotDestroyClass)
        } else {
            Ok(())
        },
    }
}

/// What a call from `origin` comes to, where `check` decides for the account
/// that signed it and `done` is handed back on success.
pub open spec fn signed_call<T>(
    origin: RawOrigin,
    check: spec_fn(AccountId) -> Result<(), Error>,
    done: spec_fn(AccountId) -> T,
) -> Result<T, DispatchError> {
    match signer(origin) {
        None => Err(DispatchError::BadOrigin),
        Some(sender) => match check(sender) {
            Err(e) => Err(DispatchError::Nft(e)),
            Ok(()) => Ok(done(sender)),
        },
    }
}

/// The registry's calls.
pub struct Pallet;

impl Pallet {
    /// Opens a class for the account that signed the call. `class_id` is the
    /// number that the registry will give the class. Handed back are the
    /// class for the host to create and the event to report once it exists.
    pub fn create_class(
        origin: RawOrigin,
        metadata: Vec<u8>,
        data: ClassData,
        class_id: ClassId,
    ) -> (r: Result<(NewClass, Event), DispatchError>)
        ensures
            match signer(origin) {
                None => r is Err && r->Err_0 == DispatchError::BadOrigin,
                Some(sender) => r matches Ok((class, event)) && class.owner == sender
                    && class.metadata@ == metadata@ && class.data == data && event
                    == Event::NFTTokenClassCreated(sender, class_id),
            },
    {
        match ensure_signed(origin) {
            Ok(sender) => Ok(
                (
                    NewClass { owner: sender, metadata, data },
                    Event::NFTTokenClassCreated(sender, class_id),
                ),
            ),
            Err(_) => Err(DispatchError::BadOrigin),
        }
    }

    /// Lets the owner of a class mint in it. `token_id` is the number that the
    /// registry will give the token. Handed back are the token for the host
    /// to mint, which is the caller's and starts unlocked whatever
    /// `token_data` says, and the event to report once it exists.
    pub fn mint(
        origin: RawOrigin,
        class_id: ClassId,
        metadata: Vec<u8>,
        token_data: TokenData,
        class: Option<ClassInfo>,
        token_id: TokenId,
    ) -> (r: Result<(NewToken, Event), DispatchError>)
        ensures
            match signer(origin) {
                None => r is Err && r->Err_0 == DispatchError::BadOrigin,
                Some(sender) => match class_owner_check(sender, class) {
                    Err(e) => r is Err && r->Err_0 == DispatchError::Nft(e),
                    Ok(()) => r matches Ok((token, event)) && token.owner == sender
                        && token.class_id == class_id && token.metadata@ == metadata@ && token.data
                        == (TokenData { locked: false }) && event == Event::NFTTokenMinted(
                        sender,
                        class_id,
                        token_id,
                    ),
                },
            },
    {
        let sender = match ensure_signed(origin) {
            Ok(sender) => sender,
            Err(_) => {
                return Err(DispatchError::BadOrigin);
            },
        };
        let class_info = match class {
            Some(c) => c,
            None => { return Err(DispatchError::Nft(Error::ClassNotFound)); },
        };
        if sender != class_info.owner {
            return Err(DispatchError::Nft(Error::NoPermission));
        }
        let mut cloned_data = token_data;
        cloned_data.locked = false;
        Ok(
            (
                NewToken { owner: sender, class_id, metadata, data: cloned_data },
                Event::NFTTokenMinted(sender, class_id, token_id),
            ),
        )
    }

    /// Hands an unlocked token over from the account that signed the call to
    /// `dest`. Handed back are the entry as it stands afterwards and the event
    /// to report.
    pub fn transfer(origin: RawOrigin, dest: AccountId, token: Token, entry: &TokenEntry) -> (r:
        Result<(TokenEntry, Event), DispatchError>)
        ensures
            r == signed_call(
                origin,
                |sender: AccountId| holder_check(sender, *entry),
                |sender: AccountId|
                    (
                        entry.with_owner(dest),
                        Event::NFTTokenTransferred(sender, dest, token.0, token.1),
                    ),
            ),
    {
        let sender = match ensure_signed(origin) {
            Ok(sender) => sender,
            Err(_) => {
                return Err(DispatchError::BadOrigin);
            },
        };
        match Self::check_holder(sender, entry) {
            Err(e) => Err(DispatchError::Nft(e)),
            Ok(token_info) => Ok(
                (
                    TokenEntry {
                        class: entry.class,
                        token: Some(TokenInfo { owner: dest, data: token_info.data }),
                    },
                    Event::NFTTokenTransferred(sender, dest, token.0, token.1),
                ),
            ),
        }
    }

    /// Lets the account that signed the call burn an unlocked token of its
    /// own. Handed back are the account to burn for and the event to report
    /// once the token is gone.
    pub fn burn(origin: RawOrigin, token: Token, entry: &TokenEntry) -> (r: Result<
        (AccountId, Event),
        DispatchError,
    >)
        ensures
            r == signed_call(
                origin,
                |sender: AccountId| holder_check(sender, *entry),
                |sender: AccountId| (sender, Event::NFTTokenBurned(sender, token.1)),
            ),
    {
        let sender = match ensure_signed(origin) {
            Ok(sender) => sender,
            Err(_) => {
                return Err(DispatchError::BadOrigin);
            },
        };
        match Self::check_holder(sender, entry) {
            Err(e) => Err(DispatchError::Nft(e)),
            Ok(_) => Ok((sender, Event::NFTTokenBurned(sender, token.1))),
        }
    }

    /// Lets the owner of an empty class destroy it.
    pub fn destroy_class(origin: RawOrigin, class_id: ClassId, class: Option<ClassInfo>) -> (r:
        Result<(AccountId, Event), DispatchError>)
        ensures
            r == signed_call(
                origin,
                |sender: AccountId| destroy_class_check(sender, class),
                |sender: AccountId| (sender, Event::NFTTokenClassDestroyed(sender, class_id)),
            ),
    {
        let sender = match ensure_signed(origin) {
            Ok(sender) => sender,
            Err(_) => {
                return Err(DispatchError::BadOrigin);
            },
        };
        let class_info = match class {
            Some(c) => c,
            None => { return Err(DispatchError::Nft(Error::ClassNotFound)); },
        };
        if sender != class_info.owner {
            return Err(DispatchError::Nft(Error::NoPermission));
        }
        if class_info.total_issuance != 0 {
            return Err(DispatchError::Nft(Error::CannotDestroyClass));
        }
        Ok((sender, Event::NFTTokenClassDestroyed(sender, class_id)))
    }

    /// Whether `account` holds the token.
    pub fn is_owner(account: &AccountId, entry: &TokenEntry) -> (b: bool)
        ensures
            b == entry.owned_by(*account),
    {
        match entry.token {
            Some(t) => t.owner == *account,
            None => false,
        }
    }

    /// Whether the token is locked; there has to be a token.
    pub fn is_locked(entry: &TokenEntry) -> (r: Result<bool, DispatchError>)
        ensures
            r == match entry.token {
                Some(t) => Ok::<bool, DispatchError>(t.data.locked),
                None => Err::<bool, DispatchError>(DispatchError::Nft(Error::TokenNotFound)),
            },
    {
        match entry.token {
            Some(t) => Ok(t.data.locked),
            None => Err(DispatchError::Nft(Error::TokenNotFound)),
        }
    }

    /// Flips the lock flag of a token on behalf of `account`. Handed back are
    /// the entry as it stands afterwards and, where there was a token to flip,
    /// the event to report. Under a class without the token nothing changes.
    pub fn toggle_lock(account: &AccountId, token_id: Token, entry: &TokenEntry) -> (r: Result<
        (TokenEntry, Option<Event>),
        DispatchError,
    >)
        ensures
            r == match toggle_lock_check(*account, *entry) {
                Err(e) => Err::<(TokenEntry, Option<Event>), DispatchError>(DispatchError::Nft(e)),
                Ok(()) => Ok::<(TokenEntry, Option<Event>), DispatchError>(
                    (
                        toggled(*entry),
                        if entry.token is Some {
                            Some(
                                Event::NFTTokenMintedLockToggled(
                                    *account,
                                    token_id.0,
                                    token_id.1,
                                    !entry.locked(),
                                ),
                            )
                        } else {
                            None
                        },
                    ),
                ),
            },
    {
        if entry.class.is_none() {
            return Err(DispatchError::Nft(Error::ClassNotFound));
        }
        match entry.token {
            Some(t) => {
                if *account != t.owner {
                    return Err(DispatchError::Nft(Error::NoPermission));
                }
                let locked = !t.data.locked;
                Ok(
                    (
                        TokenEntry {
                            class: entry.class,
                            token: Some(TokenInfo { owner: t.owner, data: TokenData { locked } }),
                        },
                        Some(
                            Event::NFTTokenMintedLockToggled(
                                *account,
                                token_id.0,
                                token_id.1,
                                locked,
                            ),
                        ),
                    ),
                )
            },
            None => Ok((*entry, None)),
        }
    }

    /// The token behind an entry, where `sender` may move or burn it.
    fn check_holder(sender: AccountId, entry: &TokenEntry) -> (r: Result<TokenInfo, Error>)
        ensures
            r == match holder_check(sender, *entry) {
                Err(e) => Err::<TokenInfo, Error>(e),
                Ok(()) => Ok::<TokenInfo, Error>(entry.token->Some_0),
            },
    {
        if entry.class.is_none() {
            return Err(Error::ClassNotFound);
        }
        let token_info = match entry.token {
            Some(t) => t,
            None => { return Err(Error::TokenNotFound); },
        };
        if sender != token_info.owner {
            return Err(Error::NoPermission);
        }
        if token_info.data.locked {
            return Err(Error::TokenLocked);
        }
        Ok(token_info)
    }
}

} // verus!
