//! The credential core presents when it connects.
//!
//! Core knows only an authentication mechanism and its secret. It never
//! unlocks a keyring and never mints or refreshes OAuth: the secret is handed
//! in already resolved.

use secrecy::{ExposeSecret, SecretString};
use vstd::prelude::*;

verus! {

/// A resolved secret (a password or a token), held in a `secrecy::SecretString`
/// so it is zeroized on drop and never printed. Verus cannot declare
/// `secrecy::SecretBox` (its parameter is bound by an outside trait), so the
/// container is hidden here and what it holds is named by [`secret_text`].
#[verifier::external_body]
pub struct CarillonSecret {
    inner: SecretString,
}

/// The text a secret container holds.
pub uninterp spec fn secret_text(secret: CarillonSecret) -> Seq<char>;

impl CarillonSecret {
    /// Wraps an already-resolved secret (`secrecy::SecretString::from`, which
    /// stores the string as it is).
    #[verifier::external_body]
    pub fn new(text: String) -> (secret: Self)
        ensures
            secret_text(secret) == text@,
    {
        CarillonSecret { inner: SecretString::from(text) }
    }

    /// Reads the secret text (`secrecy::ExposeSecret::expose_secret`, which
    /// hands back the stored string).
    #[verifier::external_body]
    pub(crate) fn expose(&self) -> (text: &str)
        ensures
            text@ == secret_text(*self),
    {
        self.inner.expose_secret()
    }
}

impl CarillonCredential {
    /// The text of the credential's secret, whichever mechanism it is for.
    pub open spec fn text(self) -> Seq<char> {
        match self {
            CarillonCredential::Password(secret) => secret_text(secret),
            CarillonCredential::Bearer(secret) => secret_text(secret),
        }
    }
}

/// A resolved credential presented to a server on connect.
pub enum CarillonCredential {
    /// A SASL LOGIN or HTTP Basic password.
    Password(CarillonSecret),
    /// A pre-minted OAuth 2.0 access token, used as OAUTHBEARER or a bearer.
    /// Upstream mints and refreshes it; core only presents it.
    Bearer(CarillonSecret),
}

} // verus!
