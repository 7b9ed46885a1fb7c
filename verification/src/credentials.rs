//! Credential resolution: a previously cached credential set always wins over
//! a freshly supplied username and password, so a host that logged in once
//! re-authenticates silently.

use vstd::prelude::*;

verus! {

/// How a login attempt will authenticate.
#[derive(Debug, PartialEq, Eq)]
pub enum Credentials {
    /// A credential set read back from the on-disk cache.
    Cached { username: String, auth_data: Vec<u8> },
    /// Password authentication from host-supplied values.
    Password { username: String, password: String },
}

/// What `resolve` returns: the cached set verbatim when one exists, else
/// password credentials built from the supplied values.
pub open spec fn spec_resolve(
    cached: Option<Credentials>,
    username: String,
    password: String,
) -> Credentials {
    match cached {
        Some(c) => c,
        None => Credentials::Password { username, password },
    }
}

/// Pick the credentials for a login attempt. A cached set, when present, is
/// returned verbatim and the supplied username and password play no part.
pub fn resolve(cached: Option<Credentials>, username: String, password: String) -> (r: Credentials)
    ensures
        r == spec_resolve(cached, username, password),
        cached matches Some(c) ==> r == c,
        cached is None ==> (r matches Credentials::Password { username: u, password: p }
            && u@ == username@ && p@ == password@),
{
    match cached {
        Some(c) => c,
        None => Credentials::Password { username, password },
    }
}

/// With a cached credential set present, resolution does not depend on the
/// supplied username or password in any way: the cached identity always wins.
pub proof fn lemma_resolve_ignores_supplied(
    cached: Credentials,
    u1: String,
    p1: String,
    u2: String,
    p2: String,
)
    ensures
        spec_resolve(Some(cached), u1, p1) == spec_resolve(Some(cached), u2, p2),
        spec_resolve(Some(cached), u1, p1) == cached,
{
}

} // verus!
