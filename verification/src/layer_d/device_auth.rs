//! The device-auth seam and its headless default.
//!
//! A headless full peer reads its vault password from the
//! [`BENTEN_VAULT_PASSWORD`] source (environment or IPC), never from a TTY.
//! A missing source is refused with [`DeviceAuthError::NoPasswordSource`];
//! every vault-open failure (wrong password, tampered vault) collapses into
//! the single [`DeviceAuthError::VaultDecryptFailed`].

use vstd::prelude::*;

use super::sealed::Sealed;

verus! {

/// The frozen name of the headless password source.
pub const BENTEN_VAULT_PASSWORD: &'static str = "BENTEN_VAULT_PASSWORD";

/// Typed device-auth refusals.
#[derive(Debug, PartialEq, Eq, Clone, Copy, Structural)]
#[non_exhaustive]
pub enum DeviceAuthError {
    /// No password source supplied a password.
    NoPasswordSource,
    /// The vault did not open (wrong password or tampered vault).
    VaultDecryptFailed,
    /// The backend is locked.
    Locked,
}

/// The device-auth backend seam (sealed: only this crate implements it).
///
/// `open_vault` is the vault stack's opener (Argon2id key derivation, then
/// AEAD open): given the vault bytes and a password it yields the 32-byte
/// principal key, or fails.
pub trait DeviceAuthBackend: Sealed {
    /// The stored vault bytes.
    spec fn spec_vault(&self) -> Seq<u8>;

    /// The password the headless source supplies, if any.
    spec fn spec_password_source(&self) -> Option<Seq<u8>>;

    /// Whether the backend reports itself unlocked.
    spec fn spec_unlocked(&self) -> bool;

    /// Unlock: refuse without a password source; otherwise open the vault
    /// with the source's password, any failure becoming
    /// [`DeviceAuthError::VaultDecryptFailed`]. `prompt` is advisory.
    fn unlock<F: FnOnce(&[u8], &[u8]) -> Result<[u8; 32], ()>>(
        &self,
        prompt: Option<&str>,
        open_vault: F,
    ) -> (r: Result<[u8; 32], DeviceAuthError>)
        requires
            forall|v: &[u8], p: &[u8]| open_vault.requires((v, p)),
        ensures
            self.spec_password_source() is None ==> r == Err::<[u8; 32], DeviceAuthError>(
                DeviceAuthError::NoPasswordSource,
            ),
            self.spec_password_source() is Some ==> exists|v: &[u8], p: &[u8], res: Result<[u8; 32], ()>|
                #![trigger open_vault.ensures((v, p), res)]
                open_vault.ensures((v, p), res) && v@ == self.spec_vault() && Some(p@)
                    == self.spec_password_source() && match res {
                    Ok(k) => r == Ok::<[u8; 32], DeviceAuthError>(k),
                    Err(_) => r == Err::<[u8; 32], DeviceAuthError>(
                        DeviceAuthError::VaultDecryptFailed,
                    ),
                },
    ;

    /// Drop any in-memory unlocked state.
    fn lock(&mut self)
        ensures
            !final(self).spec_unlocked(),
            final(self).spec_vault() == old(self).spec_vault(),
            final(self).spec_password_source() == old(self).spec_password_source(),
    ;

    /// Whether a biometric unlock surface exists.
    fn supports_biometric(&self) -> bool;

    /// Whether a remote-unlock flow exists.
    fn supports_remote_unlock(&self) -> bool;

    /// Whether the backend is unlocked.
    fn is_unlocked(&self) -> (r: bool)
        ensures
            r == self.spec_unlocked(),
    ;
}

/// The headless default backend: the stored vault bytes and what the
/// headless password source supplies. Unlocking hands the key back by
/// value and never marks the backend unlocked.
pub struct HeadlessDeviceAuth {
    vault_bytes: Vec<u8>,
    password_source: Option<Vec<u8>>,
    unlocked: bool,
}

impl HeadlessDeviceAuth {
    /// A locked backend over sealed vault bytes whose password source
    /// supplies `password_source` (`None`: no source).
    pub fn from_vault_bytes(vault_bytes: Vec<u8>, password_source: Option<&[u8]>) -> (d: Self)
        ensures
            d.spec_vault() == vault_bytes@,
            d.spec_password_source() == match password_source {
                Some(p) => Some(p@),
                None => None::<Seq<u8>>,
            },
            !d.spec_unlocked(),
    {
        let source = match password_source {
            Some(p) => {
                let mut v: Vec<u8> = Vec::new();
                crate::bytes::push_bytes(&mut v, p);
                Some(v)
            },
            None => None,
        };
        HeadlessDeviceAuth { vault_bytes, password_source: source, unlocked: false }
    }
}

impl Sealed for HeadlessDeviceAuth {

}

impl DeviceAuthBackend for HeadlessDeviceAuth {
    closed spec fn spec_vault(&self) -> Seq<u8> {
        self.vault_bytes@
    }

    closed spec fn spec_password_source(&self) -> Option<Seq<u8>> {
        match self.password_source {
            Some(p) => Some(p@),
            None => None,
        }
    }

    closed spec fn spec_unlocked(&self) -> bool {
        self.unlocked
    }

    fn unlock<F: FnOnce(&[u8], &[u8]) -> Result<[u8; 32], ()>>(
        &self,
        prompt: Option<&str>,
        open_vault: F,
    ) -> (r: Result<[u8; 32], DeviceAuthError>) {
        let pw = match &self.password_source {
            Some(pw) => pw,
            None => {
                return Err(DeviceAuthError::NoPasswordSource);
            },
        };
        match open_vault(self.vault_bytes.as_slice(), pw.as_slice()) {
            Ok(k) => Ok(k),
            Err(_) => Err(DeviceAuthError::VaultDecryptFailed),
        }
    }

    fn lock(&mut self) {
        self.unlocked = false;
    }

    fn supports_biometric(&self) -> (r: bool)
        ensures
            !r,
    {
        false
    }

    fn supports_remote_unlock(&self) -> (r: bool)
        ensures
            r,
    {
        true
    }

    fn is_unlocked(&self) -> (r: bool) {
        self.unlocked
    }
}

} // verus!
