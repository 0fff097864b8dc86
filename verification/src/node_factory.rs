//! The composition root: from a configuration and the handles of the
//! outside collaborators to the one object that request handlers share.

use vstd::prelude::*;
use crate::config::{operator_fault, OperatorConfig, OperatorConfigError};
use crate::hexcode::{node_id_bytes, signer_key_bytes};
use crate::identity::OperatorIdentity;
use crate::state::ServerState;

verus! {

/// The node, assembled. `storage` and `vrf_range_contract` are the
/// handles of the storage and of the range oracle; this crate carries them
/// and never looks inside.
pub struct Operator<S, R> {
    pub config: OperatorConfig,
    pub storage: S,
    pub state: ServerState,
    pub vrf_range_contract: R,
}

/// Builds the node from its configuration.
#[derive(Debug)]
pub struct OperatorFactory {
    pub config: OperatorConfig,
}

impl Default for OperatorFactory {
    fn default() -> (factory: Self)
        ensures
            factory.config@ == OperatorConfig::spec_default(),
    {
        OperatorFactory { config: OperatorConfig::default() }
    }
}

impl OperatorFactory {
    /// A factory with the empty configuration.
    pub fn init() -> (factory: Self)
        ensures
            factory.config@ == OperatorConfig::spec_default(),
    {
        OperatorFactory::default()
    }

    /// The factory with `config` in place of what it held.
    pub fn set_config(self, config: OperatorConfig) -> (factory: Self)
        ensures
            factory.config == config,
    {
        let mut factory = self;
        factory.config = config;
        factory
    }

    /// Assembles the node.
    ///
    /// The handles come in ready made, so they exist before the state does.
    /// The identity is resolved from the configuration first, the signer key
    /// before the node id: an ill-formed key is `InvalidSignerKey` whatever
    /// the node id, and `InvalidNodeId` is named only where the key is sound.
    /// Where either is at fault nothing is assembled. Then the state is
    /// seeded with the identity and an empty cache of the configured
    /// capacity, and only the finished object is handed out.
    pub fn create_operator<S, R>(config: OperatorConfig, storage: S, vrf_range_contract: R) -> (made:
        Result<Operator<S, R>, OperatorConfigError>)
        ensures
            match made {
                Ok(operator) => {
                    &&& operator_fault(config.node.node_id@, config.node.signer_key@) is None
                    &&& operator.config == config
                    &&& operator.storage == storage
                    &&& operator.vrf_range_contract == vrf_range_contract
                    &&& operator.state.wf()
                    &&& operator.state.ids() == Seq::<Seq<char>>::empty()
                    &&& operator.state.capacity() == config.node.cache_msg_maximum
                    &&& operator.state.seeded_identity().id_text() == config.node.node_id@
                    &&& operator.state.seeded_identity().address_view() == node_id_bytes(
                        config.node.node_id@,
                    )
                    &&& operator.state.seeded_identity().key_view() == signer_key_bytes(
                        config.node.signer_key@,
                    )
                },
                Err(fault) => operator_fault(config.node.node_id@, config.node.signer_key@)
                    == Some(fault),
            },
    {
        let identity = match OperatorIdentity::from_config(&config) {
            Ok(identity) => identity,
            Err(fault) => {
                return Err(fault);
            },
        };
        let state = ServerState::new(identity, config.node.cache_msg_maximum);
        Ok(Operator { config, storage, state, vrf_range_contract })
    }
}

} // verus!
