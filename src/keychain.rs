use vstd::prelude::*;

verus! {

/// Types of keychains.
#[derive(Debug, Clone, Copy, PartialEq, Eq, Structural, Hash, Ord, PartialOrd)]
pub enum KeychainKind {
    /// External keychain, used for deriving recipient addresses.
    External,
    /// Internal keychain, used for deriving change addresses.
    Internal,
}

/// The stable one-byte encoding of a keychain: `'e'` or `'i'`.
pub open spec fn keychain_byte(k: KeychainKind) -> u8 {
    match k {
        KeychainKind::External => 101u8,
        KeychainKind::Internal => 105u8,
    }
}

const EXTERNAL_BYTE: u8 = 101;

const INTERNAL_BYTE: u8 = 105;

const EXTERNAL_KEY: [u8; 1] = [EXTERNAL_BYTE];

const INTERNAL_KEY: [u8; 1] = [INTERNAL_BYTE];

impl KeychainKind {
    /// Return the keychain as a byte.
    pub fn as_byte(&self) -> (r: u8)
        ensures
            r == keychain_byte(*self),
    {
        match self {
            KeychainKind::External => EXTERNAL_BYTE,
            KeychainKind::Internal => INTERNAL_BYTE,
        }
    }
}

impl AsRef<[u8]> for KeychainKind {
    /// The keychain as a one-byte key fragment, the byte of `as_byte`.
    fn as_ref(&self) -> (r: &[u8])
        ensures
            r@ == seq![keychain_byte(*self)],
    {
        match self {
            KeychainKind::External => {
                let key: &'static [u8; 1] = &EXTERNAL_KEY;
                key.as_slice()
            },
            KeychainKind::Internal => {
                let key: &'static [u8; 1] = &INTERNAL_KEY;
                key.as_slice()
            },
        }
    }
}

} // verus!
