//! The administrator credentials that a fresh PBX starts with.

use vstd::prelude::*;
use crate::text::to_owned_string;

verus! {

/// Login name and password of the first administrator account.
#[derive(Debug, Clone)]
pub struct InitialCredentials {
    pub username: String,
    pub password: String,
}

/// The credentials of a fresh installation: user `admin`, password `blank`.
pub fn generate_initial_credentials() -> (res: InitialCredentials)
    ensures
        res.username@ == "admin"@,
        res.password@ == "blank"@,
{
    InitialCredentials { username: to_owned_string("admin"), password: to_owned_string("blank") }
}

} // verus!
