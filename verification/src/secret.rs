//! Structural secret redaction: HF tokens and server API keys are wrapped in
//! [`Secret`], whose only rendering is `[redacted]`. The raw value is reachable
//! only through the explicit [`Secret::expose`] / [`Secret::into_inner`]
//! accessors, and there is no `Deref` to the inner value.

use vstd::prelude::*;

verus! {

/// The placeholder rendered in every non-exposing view of a [`Secret`].
pub const REDACTED: &'static str = "[redacted]";

/// A value whose contents are redacted from every rendering. Construct with
/// [`Secret::new`]; reach the raw value only through [`Secret::expose`] or
/// [`Secret::into_inner`].
#[derive(Clone)]
pub struct Secret<T> {
    inner: T,
}

impl<T> Secret<T> {
    /// The raw value held.
    pub closed spec fn raw(self) -> T {
        self.inner
    }

    /// Wraps `value` as a secret.
    pub fn new(value: T) -> (r: Secret<T>)
        ensures
            r.raw() == value,
    {
        Secret { inner: value }
    }

    /// Borrows the raw secret. Use only at a sanctioned exposure site
    /// (`Authorization`-header construction, constant-time compare).
    pub fn expose(&self) -> (r: &T)
        ensures
            *r == self.raw(),
    {
        &self.inner
    }

    /// Consumes the secret and returns the raw value.
    pub fn into_inner(self) -> (r: T)
        ensures
            r == self.raw(),
    {
        self.inner
    }

    /// The only rendering of a secret, whatever it holds: `[redacted]`.
    pub fn redacted(&self) -> (r: String)
        ensures
            r@ == REDACTED@,
    {
        REDACTED.to_owned()
    }
}

} // verus!
