//! The result of one scan iteration.

use vstd::prelude::*;

verus! {

/// One of the three fixed operator roles whose address is monitored.
#[derive(Clone, Copy, Debug, PartialEq, Eq, Structural)]
pub enum Role {
    SigningPolicy,
    Submit,
    SubmitSignature,
}

/// The snapshot produced by one scan iteration: for each role, whether a
/// transaction from its address appeared in the scanned window, and the
/// address's balance in the chain's smallest units.
///
/// A snapshot is built in one piece from a single iteration and never mutated
/// after it is published, so its fields always belong to the same scan pass.
#[derive(Clone, Copy, Debug, PartialEq, Eq, Structural)]
pub struct Data {
    pub signing_policy_tx_found: bool,
    pub signing_policy_balance: u64,
    pub submit_tx_found: bool,
    pub submit_balance: u64,
    pub submit_signature_tx_found: bool,
    pub submit_signature_balance: u64,
}

/// The placeholder snapshot served before the first scan completes: no role
/// found, every balance zero.
pub open spec fn spec_zero_data() -> Data {
    (Data {
        signing_policy_tx_found: false,
        signing_policy_balance: 0,
        submit_tx_found: false,
        submit_balance: 0,
        submit_signature_tx_found: false,
        submit_signature_balance: 0,
    })
}

impl Data {
    /// The zero-valued placeholder snapshot.
    pub fn zero() -> (d: Data)
        ensures
            d == spec_zero_data(),
    {
        Data {
            signing_policy_tx_found: false,
            signing_policy_balance: 0,
            submit_tx_found: false,
            submit_balance: 0,
            submit_signature_tx_found: false,
            submit_signature_balance: 0,
        }
    }

    /// Whether the given role's address was seen sending in the window.
    pub fn found(&self, role: Role) -> (r: bool)
        ensures
            r == self.spec_found(role),
    {
        match role {
            Role::SigningPolicy => self.signing_policy_tx_found,
            Role::Submit => self.submit_tx_found,
            Role::SubmitSignature => self.submit_signature_tx_found,
        }
    }

    /// The found flag of the given role.
    pub open spec fn spec_found(&self, role: Role) -> bool {
        match role {
            Role::SigningPolicy => self.signing_policy_tx_found,
            Role::Submit => self.submit_tx_found,
            Role::SubmitSignature => self.submit_signature_tx_found,
        }
    }
}

impl Default for Data {
    /// The default snapshot is the zero-valued placeholder.
    fn default() -> (d: Data)
        ensures
            d == spec_zero_data(),
    {
        Data::zero()
    }
}

} // verus!
