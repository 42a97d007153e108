//! High-level wallet: HD key derivation over a pluggable storage backend.
//!
//! The wallet keeps the mnemonic and the key-index counter in storage and
//! derives per-swap parameters on demand. Deriving for a new swap reads the
//! counter and advances it by one; the two steps are not atomic, so the
//! caller must serialize swap creation per backend (two concurrent creations
//! could otherwise receive the same index and hence the same secrets).

use vstd::prelude::*;

use crate::error::Error;
use crate::hd_wallet::HARDENED_BIT;
use crate::hd_wallet::HdWallet;
use crate::hd_wallet::mnemonic_ok;
use crate::hd_wallet::spec_swap_params_match;
use crate::hd_wallet::spec_user_id_xpub;
use crate::storage::WalletStorage;
use crate::storage::WalletStorageExt;
use crate::types::Network;
use crate::types::SwapParams;
use crate::types::wf_swap_params;

verus! {

/// Wallet with injected storage, generic over the backend.
pub struct Wallet<S: WalletStorage> {
    storage: S,
    network: Network,
}

impl<S: WalletStorage> Wallet<S> {
    /// The wallet's storage backend state.
    pub closed spec fn spec_storage(&self) -> S {
        self.storage
    }

    /// The wallet's network.
    pub closed spec fn spec_network(&self) -> Network {
        self.network
    }

    /// The wallet is well-formed when its storage backend is.
    pub open spec fn wf(&self) -> bool {
        self.spec_storage().wf()
    }

    /// Create a new wallet with the given storage provider.
    pub fn new(storage: S, network: Network) -> (w: Wallet<S>)
        requires
            storage.wf(),
        ensures
            w.wf(),
            w.spec_storage() == storage,
            w.spec_network() == network,
    {
        Wallet { storage, network }
    }

    /// Get the network this wallet is configured for.
    pub fn network(&self) -> (r: Network)
        ensures
            r == self.spec_network(),
    {
        self.network
    }

    /// Get a reference to the storage provider.
    pub fn storage(&self) -> (r: &S)
        ensures
            *r == self.spec_storage(),
    {
        &self.storage
    }

    /// Generate a new mnemonic or return the existing one from storage.
    ///
    /// An existing mnemonic is returned as stored; otherwise a fresh 12-word
    /// mnemonic is generated, stored, and returned.
    pub fn generate_or_get_mnemonic(&mut self) -> (r: Result<String, Error>)
        requires
            old(self).wf(),
        ensures
            final(self).wf(),
            final(self).spec_network() == old(self).spec_network(),
            r matches Ok(m) ==> ({
                if old(self).spec_storage().spec_mnemonic() is Some {
                    old(self).spec_storage().spec_mnemonic() == Some(m@) && final(self).spec_storage() == old(self).spec_storage()
                } else {
                    mnemonic_ok(m@) && final(self).spec_storage().spec_mnemonic() == Some(m@)
                        && final(self).spec_storage().spec_key_index() == old(self).spec_storage().spec_key_index()
                }
            }),
    {
        match self.storage.get_mnemonic() {
            Ok(Some(m)) => {
                return Ok(m);
            },
            Ok(None) => {},
            Err(e) => {
                return Err(e);
            },
        }
        let wallet = match HdWallet::generate(self.network, 12) {
            Ok(w) => w,
            Err(e) => {
                return Err(e);
            },
        };
        let mnemonic = wallet.mnemonic_phrase();
        match self.storage.set_mnemonic(mnemonic.as_str()) {
            Ok(_) => Ok(mnemonic),
            Err(e) => Err(e),
        }
    }

    /// Get the stored mnemonic (for backup display); `None` when none has
    /// been generated or imported.
    pub fn get_mnemonic(&self) -> (r: Result<Option<String>, Error>)
        requires
            self.wf(),
        ensures
            r matches Ok(m) ==> (match m {
                Option::Some(s) => self.spec_storage().spec_mnemonic() == Some(s@),
                Option::None => self.spec_storage().spec_mnemonic() is None,
            }),
            r matches Err(e) ==> e is Storage,
    {
        self.storage.get_mnemonic()
    }

    /// Import a mnemonic phrase, replacing any existing one. The phrase is
    /// validated first, and the key index is reset to zero.
    pub fn import_mnemonic(&mut self, phrase: &str) -> (r: Result<(), Error>)
        requires
            old(self).wf(),
        ensures
            final(self).wf(),
            final(self).spec_network() == old(self).spec_network(),
            r is Ok ==> mnemonic_ok(phrase@) && final(self).spec_storage().spec_mnemonic() == Some(
                phrase@,
            ) && final(self).spec_storage().spec_key_index() == 0,
            !mnemonic_ok(phrase@) ==> (r matches Err(e) && e is InvalidMnemonic && final(self).spec_storage() == old(self).spec_storage()),
            mnemonic_ok(phrase@) ==> (r is Ok || (r matches Err(e) && e is Storage)),
            r matches Err(e) ==> e is InvalidMnemonic || e is Storage,
    {
        let _wallet = match HdWallet::from_mnemonic(phrase, self.network) {
            Ok(w) => w,
            Err(e) => {
                return Err(e);
            },
        };
        match self.storage.set_mnemonic(phrase) {
            Ok(_) => {},
            Err(e) => {
                return Err(e);
            },
        }
        match self.storage.set_key_index(0) {
            Ok(_) => Ok(()),
            Err(e) => Err(e),
        }
    }

    /// Derive swap parameters for a new swap: reads the current key index,
    /// advances the stored counter by one, and derives at the read index.
    pub fn derive_swap_params(&mut self) -> (r: Result<SwapParams, Error>)
        requires
            old(self).wf(),
            old(self).spec_storage().spec_key_index() < u32::MAX,
        ensures
            final(self).wf(),
            final(self).spec_network() == old(self).spec_network(),
            r matches Ok(p) ==> (old(self).spec_storage().spec_mnemonic() matches Some(ph)
                && mnemonic_ok(ph) && spec_swap_params_match(
                ph,
                old(self).spec_network().spec_is_mainnet(),
                old(self).spec_storage().spec_key_index(),
                p,
            ) && wf_swap_params(p) && final(self).spec_storage().spec_key_index() == old(self).spec_storage().spec_key_index() + 1),
            final(self).spec_storage().spec_mnemonic() == old(self).spec_storage().spec_mnemonic(),
            final(self).spec_storage().spec_key_index() == old(self).spec_storage().spec_key_index()
                || final(self).spec_storage().spec_key_index() == old(
                self,
            ).spec_storage().spec_key_index() + 1,
            (r matches Err(e) && !(e is Storage)) ==> final(self).spec_storage().spec_key_index()
                == old(self).spec_storage().spec_key_index() + 1,
            old(self).spec_storage().spec_mnemonic() matches Some(ph) ==> ((mnemonic_ok(ph) && old(
                self,
            ).spec_storage().spec_key_index() < HARDENED_BIT) ==> (r is Ok || (r matches Err(e)
                && e is Storage))),
            r matches Err(e) ==> e is Storage || e is NoMnemonic || e is InvalidMnemonic
                || e is KeyDerivation,
    {
        let index = match self.storage.increment_key_index() {
            Ok(i) => i,
            Err(e) => {
                return Err(e);
            },
        };
        self.derive_swap_params_at_index(index)
    }

    /// Set the local key index to `index`.
    pub fn set_key_index(&mut self, index: u32) -> (r: Result<(), Error>)
        requires
            old(self).wf(),
        ensures
            final(self).wf(),
            final(self).spec_network() == old(self).spec_network(),
            r is Ok ==> final(self).spec_storage().spec_key_index() == index && final(self).spec_storage().spec_mnemonic() == old(self).spec_storage().spec_mnemonic(),
            r is Err ==> final(self).spec_storage().spec_mnemonic() == old(self).spec_storage().spec_mnemonic() && final(self).spec_storage().spec_key_index() == old(self).spec_storage().spec_key_index(),
            r matches Err(e) ==> e is Storage,
    {
        self.storage.set_key_index(index)
    }

    /// Derive swap parameters at a specific index (for recovery). Does not
    /// modify the stored key index.
    pub fn derive_swap_params_at_index(&self, index: u32) -> (r: Result<SwapParams, Error>)
        requires
            self.wf(),
        ensures
            r matches Ok(p) ==> (self.spec_storage().spec_mnemonic() matches Some(ph)
                && mnemonic_ok(ph) && spec_swap_params_match(
                ph,
                self.spec_network().spec_is_mainnet(),
                index,
                p,
            ) && wf_swap_params(p)),
            self.spec_storage().spec_mnemonic() is None ==> r is Err,
            (r matches Err(e) && e is NoMnemonic) ==> self.spec_storage().spec_mnemonic() is None,
            self.spec_storage().spec_mnemonic() matches Some(ph) ==> ((mnemonic_ok(ph) && index
                < HARDENED_BIT) ==> (r is Ok || (r matches Err(e) && e is Storage))),
            r matches Err(e) ==> e is Storage || e is NoMnemonic || e is InvalidMnemonic
                || e is KeyDerivation,
    {
        let mnemonic = match self.storage.get_mnemonic() {
            Ok(Some(m)) => m,
            Ok(None) => {
                return Err(Error::NoMnemonic);
            },
            Err(e) => {
                return Err(e);
            },
        };
        let wallet = match HdWallet::from_mnemonic(mnemonic.as_str(), self.network) {
            Ok(w) => w,
            Err(e) => {
                return Err(e);
            },
        };
        wallet.derive_swap_params(index)
    }

    /// Get the identity xpub for wallet recovery: safe to share with the
    /// remote service. Returns `None` when no mnemonic is stored.
    pub fn get_user_id_xpub(&self) -> (r: Result<Option<String>, Error>)
        requires
            self.wf(),
        ensures
            r matches Ok(m) ==> (match m {
                Option::Some(x) => (self.spec_storage().spec_mnemonic() matches Some(ph)
                    && mnemonic_ok(ph) && x@ == spec_user_id_xpub(
                    ph,
                    self.spec_network().spec_is_mainnet(),
                )),
                Option::None => self.spec_storage().spec_mnemonic() is None,
            }),
            self.spec_storage().spec_mnemonic() matches Some(ph) ==> (mnemonic_ok(ph) ==> (
            r is Ok || (r matches Err(e) && e is Storage))),
            r matches Err(e) ==> e is Storage || e is InvalidMnemonic,
    {
        let mnemonic = match self.storage.get_mnemonic() {
            Ok(Some(m)) => m,
            Ok(None) => {
                return Ok(None);
            },
            Err(e) => {
                return Err(e);
            },
        };
        let wallet = match HdWallet::from_mnemonic(mnemonic.as_str(), self.network) {
            Ok(w) => w,
            Err(e) => {
                return Err(e);
            },
        };
        match wallet.derive_user_id_xpub() {
            Ok(x) => Ok(Some(x)),
            Err(e) => Err(e),
        }
    }

    /// Get the current key derivation index.
    pub fn get_key_index(&self) -> (r: Result<u32, Error>)
        requires
            self.wf(),
        ensures
            r matches Ok(i) ==> i == self.spec_storage().spec_key_index(),
            r matches Err(e) ==> e is Storage,
    {
        self.storage.get_key_index()
    }
}

} // verus!
