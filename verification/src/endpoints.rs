//! Endpoints that the service announces but does not implement yet: each one
//! takes an optional byte and answers with none, whatever it receives. (Signing
//! in issues no session, so signing out has nothing to end.)
use vstd::prelude::*;

verus! {

/// Signs in with a GitHub account: not implemented yet, so it answers `None`.
#[allow(non_snake_case)]
pub fn signIn_github(_req: Option<u8>) -> (r: Option<u8>)
    ensures
        r is None,
{
    None
}

/// Signs in with a Google account: not implemented yet, so it answers `None`.
#[allow(non_snake_case)]
pub fn signIn_google(_req: Option<u8>) -> (r: Option<u8>)
    ensures
        r is None,
{
    None
}

/// Signs out: not implemented yet, so it answers `None`.
#[allow(non_snake_case)]
pub fn signOut(_req: Option<u8>) -> (r: Option<u8>)
    ensures
        r is None,
{
    None
}

/// Changes an account setting: not implemented yet, so it answers `None`.
#[allow(non_snake_case)]
pub fn setAccountSetting(_req: Option<u8>) -> (r: Option<u8>)
    ensures
        r is None,
{
    None
}

/// Reports a conversion: not implemented yet, so it answers `None`.
#[allow(non_snake_case)]
pub fn converted(_req: Option<u8>) -> (r: Option<u8>)
    ensures
        r is None,
{
    None
}

} // verus!
