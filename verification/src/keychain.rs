use vstd::prelude::*;

verus! {

/// The preference domain whose default keychain is asked for.
#[derive(Clone, Copy, Debug, PartialEq, Eq, Structural)]
pub enum KeychainDomain {
    User,
    System,
    Common,
    Dynamic,
}

} // verus!
