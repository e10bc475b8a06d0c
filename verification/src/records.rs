//! Typed credential records, one per shape, whose fields are redacted until
//! the record is turned into the uniform authentication value.

use crate::auth::{AuthView, ConnectorAuthType};
use crate::secret::Secret;
use vstd::prelude::*;
use vstd::std_specs::convert::{FromSpec, FromSpecImpl};

verus! {

/// A single key.
pub struct HeaderKey {
    pub api_key: Secret,
}

/// A pair of keys.
pub struct BodyKey {
    pub api_key: Secret,
    pub key1: Secret,
}

/// A triple of keys.
pub struct SignatureKey {
    pub api_key: Secret,
    pub key1: Secret,
    pub api_secret: Secret,
}

/// A quadruple of keys.
pub struct MultiAuthKey {
    pub api_key: Secret,
    pub key1: Secret,
    pub api_secret: Secret,
    pub key2: Secret,
}

impl Clone for HeaderKey {
    /// A second record with the same secrets.
    fn clone(&self) -> (r: Self)
        ensures
            r == *self,
    {
        HeaderKey { api_key: self.api_key.clone() }
    }
}

impl Clone for BodyKey {
    /// A second record with the same secrets.
    fn clone(&self) -> (r: Self)
        ensures
            r == *self,
    {
        BodyKey { api_key: self.api_key.clone(), key1: self.key1.clone() }
    }
}

impl Clone for SignatureKey {
    /// A second record with the same secrets.
    fn clone(&self) -> (r: Self)
        ensures
            r == *self,
    {
        SignatureKey {
            api_key: self.api_key.clone(),
            key1: self.key1.clone(),
            api_secret: self.api_secret.clone(),
        }
    }
}

impl Clone for MultiAuthKey {
    /// A second record with the same secrets.
    fn clone(&self) -> (r: Self)
        ensures
            r == *self,
    {
        MultiAuthKey {
            api_key: self.api_key.clone(),
            key1: self.key1.clone(),
            api_secret: self.api_secret.clone(),
            key2: self.key2.clone(),
        }
    }
}

impl From<HeaderKey> for ConnectorAuthType {
    fn from(key: HeaderKey) -> (r: Self) {
        ConnectorAuthType::HeaderKey { api_key: key.api_key.peek().clone() }
    }
}

impl FromSpecImpl<HeaderKey> for ConnectorAuthType {
    open spec fn obeys_from_spec() -> bool {
        true
    }

    open spec fn from_spec(key: HeaderKey) -> Self {
        ConnectorAuthType::HeaderKey { api_key: key.api_key.content() }
    }
}

impl From<BodyKey> for ConnectorAuthType {
    fn from(key: BodyKey) -> (r: Self) {
        ConnectorAuthType::BodyKey {
            api_key: key.api_key.peek().clone(),
            key1: key.key1.peek().clone(),
        }
    }
}

impl FromSpecImpl<BodyKey> for ConnectorAuthType {
    open spec fn obeys_from_spec() -> bool {
        true
    }

    open spec fn from_spec(key: BodyKey) -> Self {
        ConnectorAuthType::BodyKey { api_key: key.api_key.content(), key1: key.key1.content() }
    }
}

impl From<SignatureKey> for ConnectorAuthType {
    fn from(key: SignatureKey) -> (r: Self) {
        ConnectorAuthType::SignatureKey {
            api_key: key.api_key.peek().clone(),
            key1: key.key1.peek().clone(),
            api_secret: key.api_secret.peek().clone(),
        }
    }
}

impl FromSpecImpl<SignatureKey> for ConnectorAuthType {
    open spec fn obeys_from_spec() -> bool {
        true
    }

    open spec fn from_spec(key: SignatureKey) -> Self {
        ConnectorAuthType::SignatureKey {
            api_key: key.api_key.content(),
            key1: key.key1.content(),
            api_secret: key.api_secret.content(),
        }
    }
}

impl From<MultiAuthKey> for ConnectorAuthType {
    fn from(key: MultiAuthKey) -> (r: Self) {
        ConnectorAuthType::MultiAuthKey {
            api_key: key.api_key.peek().clone(),
            key1: key.key1.peek().clone(),
            api_secret: key.api_secret.peek().clone(),
            key2: key.key2.peek().clone(),
        }
    }
}

impl FromSpecImpl<MultiAuthKey> for ConnectorAuthType {
    open spec fn obeys_from_spec() -> bool {
        true
    }

    open spec fn from_spec(key: MultiAuthKey) -> Self {
        ConnectorAuthType::MultiAuthKey {
            api_key: key.api_key.content(),
            key1: key.key1.content(),
            api_secret: key.api_secret.content(),
            key2: key.key2.content(),
        }
    }
}

/// Turning a single key into the uniform value keeps its text.
pub proof fn lemma_header_key_kept(key: HeaderKey)
    ensures
        <ConnectorAuthType as FromSpec<HeaderKey>>::from_spec(key)@ == (AuthView::HeaderKey {
            api_key: key.api_key@,
        }),
{
}

/// Turning a pair of keys into the uniform value keeps the text of both.
pub proof fn lemma_body_key_kept(key: BodyKey)
    ensures
        <ConnectorAuthType as FromSpec<BodyKey>>::from_spec(key)@ == (AuthView::BodyKey {
            api_key: key.api_key@,
            key1: key.key1@,
        }),
{
}

/// Turning a triple of keys into the uniform value keeps the text of all
/// three.
pub proof fn lemma_signature_key_kept(key: SignatureKey)
    ensures
        <ConnectorAuthType as FromSpec<SignatureKey>>::from_spec(key)@ == (AuthView::SignatureKey {
            api_key: key.api_key@,
            key1: key.key1@,
            api_secret: key.api_secret@,
        }),
{
}

/// Turning a quadruple of keys into the uniform value keeps the text of all
/// four.
pub proof fn lemma_multi_auth_key_kept(key: MultiAuthKey)
    ensures
        <ConnectorAuthType as FromSpec<MultiAuthKey>>::from_spec(key)@ == (AuthView::MultiAuthKey {
            api_key: key.api_key@,
            key1: key.key1@,
            api_secret: key.api_secret@,
            key2: key.key2@,
        }),
{
}

} // verus!
