//! Builder-side helpers of the handler DSL: the iterate body handed to
//! `iterate(|body| ...)` and the capability scopes accepted by revocation.

use vstd::prelude::*;
use vstd::string::StringExecFns;

verus! {

/// DSL body object handed to `iterate(|body| ...)`; writes declared in an
/// iterate body are not recorded.
#[derive(Debug, Clone, Copy, PartialEq, Eq, Structural)]
pub struct IterateBody;

impl IterateBody {
    /// Declare a write inside the body (ignored); the body is returned.
    pub fn write<F>(self, f: F) -> (b: Self)
        ensures
            b == self,
    {
        self
    }
}

/// A value that names a capability scope to revoke.
pub trait RevokeScope {
    /// The scope string this value names.
    spec fn scope(&self) -> Seq<char>;

    /// The scope as a string.
    fn as_scope_string(&self) -> (s: String)
        ensures
            s@ == self.scope(),
    ;
}

impl<'a> RevokeScope for &'a str {
    open spec fn scope(&self) -> Seq<char> {
        (*self)@
    }

    fn as_scope_string(&self) -> (s: String) {
        String::from_str(*self)
    }
}

impl<'a> RevokeScope for &'a String {
    open spec fn scope(&self) -> Seq<char> {
        (*self)@
    }

    fn as_scope_string(&self) -> (s: String) {
        (*self).clone()
    }
}

impl RevokeScope for String {
    open spec fn scope(&self) -> Seq<char> {
        self@
    }

    fn as_scope_string(&self) -> (s: String) {
        self.clone()
    }
}

} // verus!
