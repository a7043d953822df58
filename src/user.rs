//! The decision on provisioning a local account for a remote identity.

use vstd::prelude::*;
use crate::text::{is_root, root_name};

verus! {

/// What to do about the local account of an authenticated identity.
#[derive(Clone, Copy, Debug, PartialEq, Eq, Structural)]
pub enum Provisioning {
    /// The superuser is never provisioned.
    Refuse,
    /// The account exists already; nothing to do.
    Present,
    /// The account has to be created.
    Create,
}

pub open spec fn provisioning_for(name: Seq<char>, exists: bool) -> Provisioning {
    if name == root_name() {
        Provisioning::Refuse
    } else if exists {
        Provisioning::Present
    } else {
        Provisioning::Create
    }
}

/// Decides about the account `username`, of which the host says whether it `exists`.
pub fn provisioning(username: &str, exists: bool) -> (r: Provisioning)
    ensures
        r == provisioning_for(username@, exists),
{
    if is_root(username) {
        Provisioning::Refuse
    } else if exists {
        Provisioning::Present
    } else {
        Provisioning::Create
    }
}

} // verus!
