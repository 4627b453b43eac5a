//! Immutable process-wide configuration.

use vstd::prelude::*;
use vstd::string::StringExecFns;
use crate::address::{spec_valid_address, valid_address, addr_matches};
use crate::data::Role;
use crate::mon_error::MonError;

verus! {

/// The configuration the monitor runs with, fixed at startup: notifier
/// credentials, the RPC endpoint, the scan window size and the three tracked
/// addresses. Addresses are plain ASCII byte strings (`0x` + 40 hex digits).
#[derive(Clone, Debug)]
pub struct RuntimeConfig {
    pub tg_api_key: String,
    pub tg_chat_id: String,
    pub rpc_url: String,
    pub block_window: u16,
    pub submit_address: Vec<u8>,
    pub submit_signature_address: Vec<u8>,
    pub signing_policy_address: Vec<u8>,
}

/// All three tracked addresses are well-formed and the window is positive.
pub open spec fn spec_config_valid(c: RuntimeConfig) -> bool {
    &&& spec_valid_address(c.submit_address@)
    &&& spec_valid_address(c.submit_signature_address@)
    &&& spec_valid_address(c.signing_policy_address@)
    &&& c.block_window > 0
}

impl RuntimeConfig {
    /// The address configured for a role.
    pub open spec fn spec_address_of(&self, role: Role) -> Seq<u8> {
        match role {
            Role::SigningPolicy => self.signing_policy_address@,
            Role::Submit => self.submit_address@,
            Role::SubmitSignature => self.submit_signature_address@,
        }
    }

    /// The address configured for a role.
    pub fn address_of(&self, role: Role) -> (a: &Vec<u8>)
        ensures
            a@ == self.spec_address_of(role),
    {
        match role {
            Role::SigningPolicy => &self.signing_policy_address,
            Role::Submit => &self.submit_address,
            Role::SubmitSignature => &self.submit_signature_address,
        }
    }

    /// Whether a transaction sender matches the role's configured address,
    /// ignoring case.
    pub open spec fn spec_sender_is(&self, role: Role, sender: Seq<u8>) -> bool {
        addr_matches(sender, self.spec_address_of(role))
    }

    /// Checks the configuration before the scanner or the exporter runs:
    /// succeeds exactly when every tracked address is well-formed and the
    /// block window is positive; a malformed configuration is rejected with
    /// a conversion error.
    pub fn validate(&self) -> (r: Result<(), MonError>)
        ensures
            r is Ok <==> spec_config_valid(*self),
            r matches Err(e) ==> e is ConversionError,
    {
        if !valid_address(&self.submit_address) || !valid_address(&self.submit_signature_address)
            || !valid_address(&self.signing_policy_address) {
            return Err(
                MonError::ConversionError(String::from_str("malformed tracked address")),
            );
        }
        if self.block_window == 0 {
            return Err(MonError::ConversionError(String::from_str("block window must be positive")));
        }
        Ok(())
    }
}

} // verus!
