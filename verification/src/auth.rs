//! Request roles used by the guard checks.

use vstd::prelude::*;

verus! {

/// The role a request acts under.
#[derive(Clone, Copy, Debug, PartialEq, Eq, Structural)]
pub enum Role {
    User,
    Admin,
    Guest,
}

} // verus!
