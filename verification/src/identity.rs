//! Who the node is: its address on the chain and the key it signs with, both
//! taken from the configuration's text.

use vstd::prelude::*;
use vstd::string::*;
use crate::config::{identity_fault, operator_fault, OperatorConfig, OperatorConfigError};
use crate::hexcode::{
    decode_address_digits, decode_key_text, is_node_id_text, node_id_bytes, signer_key_bytes,
    validate_addr,
};

verus! {

/// The node's identity. It is made once, by `resolve`, and never changes.
/// The signer key is handed out only through `signer_key`.
pub struct OperatorIdentity {
    node_id: String,
    address: [u8; 20],
    signer_key: [u8; 32],
}

impl OperatorIdentity {
    /// The node id as it stood in the configuration.
    pub closed spec fn id_text(&self) -> Seq<char> {
        self.node_id@
    }

    /// The twenty bytes of the node's address.
    pub closed spec fn address_view(&self) -> Seq<u8> {
        self.address@
    }

    /// The thirty-two bytes of the signer key.
    pub closed spec fn key_view(&self) -> Seq<u8> {
        self.signer_key@
    }

    #[verifier::type_invariant]
    closed spec fn well_formed(&self) -> bool {
        &&& is_node_id_text(self.node_id@)
        &&& self.address@ == node_id_bytes(self.node_id@)
    }

    /// Resolves the identity that a node id and a signer key spell.
    ///
    /// Succeeds exactly when the node id is `0x` and forty hexadecimal digits
    /// and the signer key is sixty-four hexadecimal digits, with or without
    /// `0x` in front. Otherwise it names the first of the two that is at
    /// fault; no identity is ever made up.
    pub fn resolve(node_id: &str, signer_key: &str) -> (resolved: Result<
        OperatorIdentity,
        OperatorConfigError,
    >)
        ensures
            match resolved {
                Ok(identity) => {
                    &&& identity_fault(node_id@, signer_key@) is None
                    &&& identity.id_text() == node_id@
                    &&& identity.address_view() == node_id_bytes(node_id@)
                    &&& identity.key_view() == signer_key_bytes(signer_key@)
                },
                Err(fault) => identity_fault(node_id@, signer_key@) == Some(fault),
            },
    {
        let address = match decode_node_id(node_id) {
            Some(bytes) => bytes,
            None => {
                return Err(OperatorConfigError::InvalidNodeId);
            },
        };
        let key = match decode_key_text(signer_key) {
            Ok(bytes) => bytes,
            Err(_) => {
                return Err(OperatorConfigError::InvalidSignerKey);
            },
        };
        Ok(OperatorIdentity { node_id: String::from_str(node_id), address, signer_key: key })
    }

    /// Resolves the identity that a configuration spells, for assembling the
    /// node.
    ///
    /// It succeeds on the same configurations as `resolve` and gives the same
    /// identity. The signer key is decoded first: where it is ill formed the
    /// fault is `InvalidSignerKey`, whatever the node id, and `InvalidNodeId`
    /// is named only where the key is sound.
    pub fn from_config(config: &OperatorConfig) -> (resolved: Result<
        OperatorIdentity,
        OperatorConfigError,
    >)
        ensures
            match resolved {
                Ok(identity) => {
                    &&& operator_fault(config.node.node_id@, config.node.signer_key@) is None
                    &&& identity.id_text() == config.node.node_id@
                    &&& identity.address_view() == node_id_bytes(config.node.node_id@)
                    &&& identity.key_view() == signer_key_bytes(config.node.signer_key@)
                },
                Err(fault) => operator_fault(config.node.node_id@, config.node.signer_key@)
                    == Some(fault),
            },
    {
        let key = match decode_key_text(config.node.signer_key.as_str()) {
            Ok(bytes) => bytes,
            Err(_) => {
                return Err(OperatorConfigError::InvalidSignerKey);
            },
        };
        let address = match decode_node_id(config.node.node_id.as_str()) {
            Some(bytes) => bytes,
            None => {
                return Err(OperatorConfigError::InvalidNodeId);
            },
        };
        Ok(OperatorIdentity { node_id: config.node.node_id.clone(), address, signer_key: key })
    }

    /// The node id, `0x` and forty hexadecimal digits.
    pub fn node_id(&self) -> (text: &str)
        ensures
            text@ == self.id_text(),
            is_node_id_text(text@),
    {
        proof {
            use_type_invariant(self);
        }
        self.node_id.as_str()
    }

    /// The address that the node id spells.
    pub fn address(&self) -> (bytes: [u8; 20])
        ensures
            bytes@ == self.address_view(),
            bytes@ == node_id_bytes(self.id_text()),
    {
        proof {
            use_type_invariant(self);
        }
        self.address
    }

    /// The key the node signs with.
    pub fn signer_key(&self) -> (bytes: &[u8; 32])
        ensures
            bytes@ == self.key_view(),
    {
        &self.signer_key
    }
}

/// The address that `node_id` spells, where it is well formed.
fn decode_node_id(node_id: &str) -> (address: Option<[u8; 20]>)
    ensures
        match address {
            Some(bytes) => is_node_id_text(node_id@) && bytes@ == node_id_bytes(node_id@),
            None => !is_node_id_text(node_id@),
        },
{
    if !validate_addr(node_id) {
        return None;
    }
    match decode_address_digits(node_id.substring_char(2, 42)) {
        Ok(bytes) => Some(bytes),
        Err(_) => None,
    }
}

} // verus!
