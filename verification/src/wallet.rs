//! Signing keys and the wallets derived from them.

use crate::error::HarnessError;
use ethers::signers::{LocalWallet, Signer};
use vstd::prelude::*;

verus! {

/// Length in bytes of a raw signing key.
pub const KEY_LENGTH: usize = 32;

/// Length in bytes of an account address.
pub const ADDRESS_LENGTH: usize = 20;

/// The chain identifier a wallet carries until it is bound to a chain.
pub const UNBOUND_CHAIN_ID: u64 = 1;

/// The account address of a raw key of `KEY_LENGTH` bytes: `None` where the
/// bytes are no signing key of the curve.
pub uninterp spec fn key_address(key: Seq<u8>) -> Option<Seq<u8>>;

/// Whether the bytes are a signing key: of the right length, and admitted by the curve.
pub open spec fn is_account_key(bytes: Seq<u8>) -> bool {
    bytes.len() == KEY_LENGTH && key_address(bytes) is Some
}

/// `LocalWallet::from_bytes` followed by `Signer::address`.
///
/// Trusted: the address returned is the one named by `key_address`, and
/// there is none exactly where the signer refuses the bytes. The signer
/// panics on a slice that is not `KEY_LENGTH` long; the parameter's type
/// leaves those out.
#[verifier::external_body]
fn address_of_key(key: &[u8; 32]) -> (address: Option<[u8; 20]>)
    ensures
        address is Some <==> key_address(key@) is Some,
        address matches Some(a) ==> key_address(key@) == Some(a@),
{
    match LocalWallet::from_bytes(key.as_slice()) {
        Ok(wallet) => Some(wallet.address().0),
        Err(_) => None,
    }
}

/// What an account is: a raw key and the address that belongs to it.
pub struct AccountView {
    pub key: Seq<u8>,
    pub address: Seq<u8>,
}

/// The account of a key that the curve admits.
pub open spec fn account_of(key: Seq<u8>) -> AccountView
    recommends
        is_account_key(key),
{
    AccountView { key, address: key_address(key).unwrap() }
}

/// A raw signing key that has been checked, kept with its address.
#[derive(Clone, Copy, Debug)]
pub struct AccountKey {
    bytes: [u8; 32],
    address: [u8; 20],
}

impl View for AccountKey {
    type V = AccountView;

    closed spec fn view(&self) -> AccountView {
        AccountView { key: self.bytes@, address: self.address@ }
    }
}

impl AccountKey {
    #[verifier::type_invariant]
    closed spec fn admitted(self) -> bool {
        key_address(self.bytes@) == Some(self.address@)
    }

    /// Checks raw bytes and keeps them as a key; `None` exactly where the
    /// curve does not admit them.
    pub fn from_bytes(bytes: [u8; 32]) -> (key: Option<AccountKey>)
        ensures
            key is Some <==> is_account_key(bytes@),
            key matches Some(k) ==> k@ == account_of(bytes@),
    {
        match address_of_key(&bytes) {
            Some(address) => Some(AccountKey { bytes, address }),
            None => None,
        }
    }

    /// The key's bytes, which the curve admits.
    pub fn to_bytes(&self) -> (bytes: [u8; 32])
        ensures
            bytes@ == self@.key,
            is_account_key(bytes@),
            self@ == account_of(bytes@),
    {
        proof {
            use_type_invariant(self);
        }
        self.bytes
    }

    /// The address that belongs to the key.
    pub fn address(&self) -> (address: [u8; 20])
        ensures
            address@ == self@.address,
            key_address(self@.key) == Some(address@),
    {
        proof {
            use_type_invariant(self);
        }
        self.address
    }
}

/// What a wallet is: the account it signs for and the chain it is bound to.
pub struct WalletView {
    pub account: AccountView,
    pub chain_id: u64,
}

/// The wallet that derivation gives for an account: not yet bound to a chain.
pub open spec fn derived_wallet(account: AccountView) -> WalletView {
    WalletView { account, chain_id: UNBOUND_CHAIN_ID }
}

/// A signing key with its address and the chain identifier it is bound to.
#[derive(Clone, Copy, Debug)]
pub struct Wallet {
    key: AccountKey,
    chain_id: u64,
}

impl View for Wallet {
    type V = WalletView;

    closed spec fn view(&self) -> WalletView {
        WalletView { account: self.key@, chain_id: self.chain_id }
    }
}

impl Wallet {
    /// The wallet of a key, carrying `UNBOUND_CHAIN_ID` until it is bound.
    pub fn from_key(key: AccountKey) -> (wallet: Wallet)
        ensures
            wallet@ == derived_wallet(key@),
    {
        Wallet { key, chain_id: UNBOUND_CHAIN_ID }
    }

    /// The same wallet bound to `chain_id`; key and address stay.
    pub fn with_chain_id(self, chain_id: u64) -> (bound: Wallet)
        ensures
            bound@ == (WalletView { chain_id, ..self@ }),
    {
        Wallet { key: self.key, chain_id }
    }

    /// The key the wallet signs with.
    pub fn key(&self) -> (key: AccountKey)
        ensures
            key@ == self@.account,
    {
        self.key
    }

    /// The address that belongs to the key.
    pub fn address(&self) -> (address: [u8; 20])
        ensures
            address@ == self@.account.address,
            key_address(self@.account.key) == Some(address@),
    {
        self.key.address()
    }

    /// The chain identifier the wallet is bound to.
    pub fn chain_id(&self) -> (chain_id: u64)
        ensures
            chain_id == self@.chain_id,
    {
        self.chain_id
    }
}

/// The wallet of the key at `index`, not yet bound to a chain. An index past
/// the end is `NotFound`: it neither wraps around nor falls back to the
/// first key.
pub fn derive(accounts: &Vec<AccountKey>, index: usize) -> (result: Result<Wallet, HarnessError>)
    ensures
        index < accounts@.len() ==> (result matches Ok(wallet) && wallet@ == derived_wallet(
            accounts@[index as int]@,
        )),
        index >= accounts@.len() ==> (result matches Err(e) && e == HarnessError::NotFound),
{
    if index < accounts.len() {
        Ok(Wallet::from_key(accounts[index]))
    } else {
        Err(HarnessError::NotFound)
    }
}

} // verus!
