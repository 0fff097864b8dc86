//! The node's configuration, as the rest of the crate consumes it.

use vstd::prelude::*;
use crate::hexcode::{is_node_id_text, is_signer_key_text, validate_addr, validate_key};

verus! {

/// Why a configuration is refused.
#[derive(Clone, Copy, Debug, PartialEq, Eq, Structural)]
pub enum OperatorConfigError {
    /// The node id is not `0x` and forty hexadecimal digits.
    InvalidNodeId,
    /// The signer key does not spell a thirty-two-byte scalar.
    InvalidSignerKey,
}

/// What `validate_config` and the identity resolver say of a node id and a
/// signer key: the node id is judged first.
pub open spec fn identity_fault(node_id: Seq<char>, signer_key: Seq<char>) -> Option<
    OperatorConfigError,
> {
    if !is_node_id_text(node_id) {
        Some(OperatorConfigError::InvalidNodeId)
    } else if !is_signer_key_text(signer_key) {
        Some(OperatorConfigError::InvalidSignerKey)
    } else {
        None
    }
}

/// What assembling the node says of a node id and a signer key: the signer
/// key is judged first, since it is decoded before anything else is made.
pub open spec fn operator_fault(node_id: Seq<char>, signer_key: Seq<char>) -> Option<
    OperatorConfigError,
> {
    if !is_signer_key_text(signer_key) {
        Some(OperatorConfigError::InvalidSignerKey)
    } else if !is_node_id_text(node_id) {
        Some(OperatorConfigError::InvalidNodeId)
    } else {
        None
    }
}

/// Assembling the node finds a fault exactly where validation finds one. It
/// names the signer key whenever the key is ill formed, and the node id only
/// where the key is well formed.
pub proof fn operator_fault_follows_the_format(node_id: Seq<char>, signer_key: Seq<char>)
    ensures
        operator_fault(node_id, signer_key) is None <==> identity_fault(node_id, signer_key)
            is None,
        operator_fault(node_id, signer_key) is None <==> is_node_id_text(node_id)
            && is_signer_key_text(signer_key),
        operator_fault(node_id, signer_key) == Some(OperatorConfigError::InvalidSignerKey)
            <==> !is_signer_key_text(signer_key),
        operator_fault(node_id, signer_key) == Some(OperatorConfigError::InvalidNodeId)
            <==> is_signer_key_text(signer_key) && !is_node_id_text(node_id),
{
}

/// A node id and a signer key are without fault exactly when both are well
/// formed; otherwise the fault is that of the node id if it is ill formed,
/// and that of the signer key only if the node id is well formed.
pub proof fn identity_fault_follows_the_format(node_id: Seq<char>, signer_key: Seq<char>)
    ensures
        identity_fault(node_id, signer_key) is None <==> is_node_id_text(node_id)
            && is_signer_key_text(signer_key),
        identity_fault(node_id, signer_key) == Some(OperatorConfigError::InvalidNodeId)
            <==> !is_node_id_text(node_id),
        identity_fault(node_id, signer_key) == Some(OperatorConfigError::InvalidSignerKey)
            <==> is_node_id_text(node_id) && !is_signer_key_text(signer_key),
{
}

/// Where the node keeps its files.
#[derive(Debug)]
pub struct StorageRootPath(String);

impl View for StorageRootPath {
    type V = Seq<char>;

    closed spec fn view(&self) -> Seq<char> {
        self.0@
    }
}

impl StorageRootPath {
    pub fn new(path: String) -> (root: Self)
        ensures
            root@ == path@,
    {
        StorageRootPath(path)
    }

    /// The path, as the text it was configured with.
    pub fn as_path(&self) -> (path: &str)
        ensures
            path@ == self@,
    {
        self.0.as_str()
    }
}

impl Default for StorageRootPath {
    fn default() -> (root: Self)
        ensures
            root@ == Seq::<char>::empty(),
    {
        StorageRootPath(String::new())
    }
}

impl Clone for StorageRootPath {
    fn clone(&self) -> (copy: Self)
        ensures
            copy@ == self@,
    {
        StorageRootPath(self.0.clone())
    }
}

pub struct DbConfigView {
    pub storage_root_path: Option<Seq<char>>,
    pub pg_db_url: Seq<char>,
    pub pg_db_name: Seq<char>,
    pub max_connect_pool: u32,
    pub min_connect_pool: u32,
    pub connect_timeout: u64,
    pub acquire_timeout: u64,
}

#[derive(Debug)]
pub struct DbConfig {
    pub storage_root_path: Option<StorageRootPath>,
    pub pg_db_url: String,
    pub pg_db_name: String,
    pub max_connect_pool: u32,
    pub min_connect_pool: u32,
    /// Seconds.
    pub connect_timeout: u64,
    pub acquire_timeout: u64,
}

impl View for DbConfig {
    type V = DbConfigView;

    open spec fn view(&self) -> DbConfigView {
        DbConfigView {
            storage_root_path: match self.storage_root_path {
                Some(root) => Some(root@),
                None => None,
            },
            pg_db_url: self.pg_db_url@,
            pg_db_name: self.pg_db_name@,
            max_connect_pool: self.max_connect_pool,
            min_connect_pool: self.min_connect_pool,
            connect_timeout: self.connect_timeout,
            acquire_timeout: self.acquire_timeout,
        }
    }
}

impl Clone for DbConfig {
    fn clone(&self) -> (copy: Self)
        ensures
            copy@ == self@,
    {
        let storage_root_path = match &self.storage_root_path {
            Some(root) => Some(root.clone()),
            None => None,
        };
        DbConfig {
            storage_root_path,
            pg_db_url: self.pg_db_url.clone(),
            pg_db_name: self.pg_db_name.clone(),
            max_connect_pool: self.max_connect_pool,
            min_connect_pool: self.min_connect_pool,
            connect_timeout: self.connect_timeout,
            acquire_timeout: self.acquire_timeout,
        }
    }
}

impl Default for DbConfig {
    fn default() -> (config: Self)
        ensures
            config@ == (DbConfigView {
                storage_root_path: None,
                pg_db_url: Seq::empty(),
                pg_db_name: Seq::empty(),
                max_connect_pool: 0,
                min_connect_pool: 0,
                connect_timeout: 0,
                acquire_timeout: 0,
            }),
    {
        DbConfig {
            storage_root_path: None,
            pg_db_url: String::new(),
            pg_db_name: String::new(),
            max_connect_pool: 0,
            min_connect_pool: 0,
            connect_timeout: 0,
            acquire_timeout: 0,
        }
    }
}

pub struct NetworkConfigView {
    pub rest_url: Seq<char>,
    pub outer_url: Seq<char>,
    pub dispatcher_url: Seq<char>,
}

#[derive(Debug)]
pub struct NetworkConfig {
    pub rest_url: String,
    pub outer_url: String,
    pub dispatcher_url: String,
}

impl View for NetworkConfig {
    type V = NetworkConfigView;

    open spec fn view(&self) -> NetworkConfigView {
        NetworkConfigView {
            rest_url: self.rest_url@,
            outer_url: self.outer_url@,
            dispatcher_url: self.dispatcher_url@,
        }
    }
}

impl Clone for NetworkConfig {
    fn clone(&self) -> (copy: Self)
        ensures
            copy@ == self@,
    {
        NetworkConfig {
            rest_url: self.rest_url.clone(),
            outer_url: self.outer_url.clone(),
            dispatcher_url: self.dispatcher_url.clone(),
        }
    }
}

impl Default for NetworkConfig {
    fn default() -> (config: Self)
        ensures
            config@ == (NetworkConfigView {
                rest_url: Seq::empty(),
                outer_url: Seq::empty(),
                dispatcher_url: Seq::empty(),
            }),
    {
        NetworkConfig {
            rest_url: String::new(),
            outer_url: String::new(),
            dispatcher_url: String::new(),
        }
    }
}

pub struct NodeConfigView {
    pub node_id: Seq<char>,
    pub signer_key: Seq<char>,
    pub cache_msg_maximum: u64,
    pub heartbeat_interval: u64,
    pub ai_models: Seq<Seq<char>>,
}

#[derive(Debug)]
pub struct NodeConfig {
    pub node_id: String,
    pub signer_key: String,
    pub cache_msg_maximum: u64,
    pub heartbeat_interval: u64,
    pub ai_models: Vec<String>,
}

impl View for NodeConfig {
    type V = NodeConfigView;

    open spec fn view(&self) -> NodeConfigView {
        NodeConfigView {
            node_id: self.node_id@,
            signer_key: self.signer_key@,
            cache_msg_maximum: self.cache_msg_maximum,
            heartbeat_interval: self.heartbeat_interval,
            ai_models: self.ai_models.deep_view(),
        }
    }
}

impl Clone for NodeConfig {
    fn clone(&self) -> (copy: Self)
        ensures
            copy@ == self@,
    {
        let ai_models = self.ai_models.clone();
        assert(ai_models.deep_view() =~= self.ai_models.deep_view());
        NodeConfig {
            node_id: self.node_id.clone(),
            signer_key: self.signer_key.clone(),
            cache_msg_maximum: self.cache_msg_maximum,
            heartbeat_interval: self.heartbeat_interval,
            ai_models,
        }
    }
}

impl Default for NodeConfig {
    fn default() -> (config: Self)
        ensures
            config@ == (NodeConfigView {
                node_id: Seq::empty(),
                signer_key: Seq::empty(),
                cache_msg_maximum: 0,
                heartbeat_interval: 0,
                ai_models: Seq::empty(),
            }),
    {
        let ai_models: Vec<String> = Vec::new();
        assert(ai_models.deep_view() =~= Seq::<Seq<char>>::empty());
        NodeConfig {
            node_id: String::new(),
            signer_key: String::new(),
            cache_msg_maximum: 0,
            heartbeat_interval: 0,
            ai_models,
        }
    }
}

pub struct ChainConfigView {
    pub chain_rpc_url: Seq<char>,
    pub vrf_range_contract: Seq<char>,
    pub vrf_sort_precision: u16,
}

#[derive(Debug)]
pub struct ChainConfig {
    pub chain_rpc_url: String,
    pub vrf_range_contract: String,
    pub vrf_sort_precision: u16,
}

impl View for ChainConfig {
    type V = ChainConfigView;

    open spec fn view(&self) -> ChainConfigView {
        ChainConfigView {
            chain_rpc_url: self.chain_rpc_url@,
            vrf_range_contract: self.vrf_range_contract@,
            vrf_sort_precision: self.vrf_sort_precision,
        }
    }
}

impl Clone for ChainConfig {
    fn clone(&self) -> (copy: Self)
        ensures
            copy@ == self@,
    {
        ChainConfig {
            chain_rpc_url: self.chain_rpc_url.clone(),
            vrf_range_contract: self.vrf_range_contract.clone(),
            vrf_sort_precision: self.vrf_sort_precision,
        }
    }
}

impl Default for ChainConfig {
    fn default() -> (config: Self)
        ensures
            config@ == (ChainConfigView {
                chain_rpc_url: Seq::empty(),
                vrf_range_contract: Seq::empty(),
                vrf_sort_precision: 0,
            }),
    {
        ChainConfig {
            chain_rpc_url: String::new(),
            vrf_range_contract: String::new(),
            vrf_sort_precision: 0,
        }
    }
}

#[derive(Clone, Copy, Debug, PartialEq, Eq, Structural)]
pub struct ApiConfig {
    pub read_maximum: u64,
}

impl Default for ApiConfig {
    fn default() -> (config: Self)
        ensures
            config.read_maximum == 0,
    {
        ApiConfig { read_maximum: 0 }
    }
}

pub struct OperatorConfigView {
    pub db: DbConfigView,
    pub net: NetworkConfigView,
    pub node: NodeConfigView,
    pub chain: ChainConfigView,
    pub api: ApiConfig,
}

/// Everything the node is told at startup.
#[derive(Debug)]
pub struct OperatorConfig {
    pub db: DbConfig,
    pub net: NetworkConfig,
    pub node: NodeConfig,
    pub chain: ChainConfig,
    pub api: ApiConfig,
}

impl View for OperatorConfig {
    type V = OperatorConfigView;

    open spec fn view(&self) -> OperatorConfigView {
        OperatorConfigView {
            db: self.db@,
            net: self.net@,
            node: self.node@,
            chain: self.chain@,
            api: self.api,
        }
    }
}

impl Clone for OperatorConfig {
    fn clone(&self) -> (copy: Self)
        ensures
            copy@ == self@,
    {
        OperatorConfig {
            db: self.db.clone(),
            net: self.net.clone(),
            node: self.node.clone(),
            chain: self.chain.clone(),
            api: self.api,
        }
    }
}

impl Default for OperatorConfig {
    fn default() -> (config: Self)
        ensures
            config@ == OperatorConfig::spec_default(),
    {
        OperatorConfig {
            db: DbConfig::default(),
            net: NetworkConfig::default(),
            node: NodeConfig::default(),
            chain: ChainConfig::default(),
            api: ApiConfig::default(),
        }
    }
}

impl OperatorConfig {
    /// The configuration in which every text is empty and every number zero.
    pub open spec fn spec_default() -> OperatorConfigView {
        OperatorConfigView {
            db: DbConfigView {
                storage_root_path: None,
                pg_db_url: Seq::empty(),
                pg_db_name: Seq::empty(),
                max_connect_pool: 0,
                min_connect_pool: 0,
                connect_timeout: 0,
                acquire_timeout: 0,
            },
            net: NetworkConfigView {
                rest_url: Seq::empty(),
                outer_url: Seq::empty(),
                dispatcher_url: Seq::empty(),
            },
            node: NodeConfigView {
                node_id: Seq::empty(),
                signer_key: Seq::empty(),
                cache_msg_maximum: 0,
                heartbeat_interval: 0,
                ai_models: Seq::empty(),
            },
            chain: ChainConfigView {
                chain_rpc_url: Seq::empty(),
                vrf_range_contract: Seq::empty(),
                vrf_sort_precision: 0,
            },
            api: ApiConfig { read_maximum: 0 },
        }
    }

    /// Accepts a configuration whose node id and signer key are well formed,
    /// and hands back a copy of it; refuses any other, naming the first of
    /// the two that is at fault.
    pub fn validate_config(config: &OperatorConfig) -> (checked: Result<
        OperatorConfig,
        OperatorConfigError,
    >)
        ensures
            match checked {
                Ok(copy) => copy@ == config@ && identity_fault(
                    config.node.node_id@,
                    config.node.signer_key@,
                ) is None,
                Err(fault) => identity_fault(config.node.node_id@, config.node.signer_key@)
                    == Some(fault),
            },
    {
        if !validate_addr(config.node.node_id.as_str()) {
            return Err(OperatorConfigError::InvalidNodeId);
        }
        if !validate_key(config.node.signer_key.as_str()) {
            return Err(OperatorConfigError::InvalidSignerKey);
        }
        Ok(config.clone())
    }
}

} // verus!
