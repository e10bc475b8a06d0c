//! A string that keeps its content out of every rendering.

use vstd::prelude::*;

verus! {

/// What a secret renders as: the type of what it holds, never the text.
pub const REDACTED: &'static str = "*** alloc::string::String ***";

/// A credential held in redacted form.
///
/// The text is private to this module. `peek` is the one way to read it;
/// `redacted` is the only rendering, and it is the same for every secret.
pub struct Secret {
    inner_secret: String,
}

impl View for Secret {
    type V = Seq<char>;

    open spec fn view(&self) -> Seq<char> {
        self.content()@
    }
}

impl Clone for Secret {
    /// A second secret with the same text.
    fn clone(&self) -> (r: Self)
        ensures
            r == *self,
    {
        Secret { inner_secret: self.inner_secret.clone() }
    }
}

impl Secret {
    /// The string that `peek` hands out.
    pub closed spec fn content(&self) -> String {
        self.inner_secret
    }

    /// Wraps `secret`.
    pub fn new(secret: String) -> (r: Self)
        ensures
            r.content() == secret,
    {
        Secret { inner_secret: secret }
    }

    /// Reads the text: the deliberate step out of redaction.
    pub fn peek(&self) -> (r: &String)
        ensures
            *r == self.content(),
    {
        &self.inner_secret
    }

    /// Renders the secret as the placeholder, whatever it holds.
    pub fn redacted(&self) -> (r: String)
        ensures
            r@ == REDACTED@,
    {
        REDACTED.to_owned()
    }
}

} // verus!
