use operator_node::config::{OperatorConfig, OperatorConfigError};
use operator_node::hexcode::{validate_addr, validate_key};
use operator_node::identity::OperatorIdentity;

const ADDR: &str = "0x0f65fe9276bc9a24ae7083ae28e2660ef72df99e";
const KEY: &str = "4c0883a69102937d6231471b5dbb6204fe5129617082792ae468d01a3f362318";

const ADDR_BYTES: [u8; 20] = [
    0x0f, 0x65, 0xfe, 0x92, 0x76, 0xbc, 0x9a, 0x24, 0xae, 0x70, 0x83, 0xae, 0x28, 0xe2, 0x66, 0x0e,
    0xf7, 0x2d, 0xf9, 0x9e,
];

const KEY_BYTES: [u8; 32] = [
    0x4c, 0x08, 0x83, 0xa6, 0x91, 0x02, 0x93, 0x7d, 0x62, 0x31, 0x47, 0x1b, 0x5d, 0xbb, 0x62, 0x04,
    0xfe, 0x51, 0x29, 0x61, 0x70, 0x82, 0x79, 0x2a, 0xe4, 0x68, 0xd0, 0x1a, 0x3f, 0x36, 0x23, 0x18,
];

fn fault(node_id: &str, signer_key: &str) -> Option<OperatorConfigError> {
    OperatorIdentity::resolve(node_id, signer_key).err()
}

#[test]
fn resolve_decodes_address_and_key() {
    let identity = OperatorIdentity::resolve(ADDR, KEY).ok().expect("well formed");
    assert_eq!(identity.node_id(), ADDR);
    assert_eq!(identity.address(), ADDR_BYTES);
    assert_eq!(identity.signer_key(), &KEY_BYTES);
}

#[test]
fn resolve_reads_upper_case_digits() {
    let node_id = format!("0x{}", ADDR[2..].to_uppercase());
    let identity = OperatorIdentity::resolve(&node_id, &KEY.to_uppercase()).ok().expect("well formed");
    assert_eq!(identity.node_id(), node_id);
    assert_eq!(identity.address(), ADDR_BYTES);
    assert_eq!(identity.signer_key(), &KEY_BYTES);
}

#[test]
fn resolve_drops_the_key_prefix() {
    for prefix in ["0x", "0X"] {
        let key = format!("{}{}", prefix, KEY);
        let identity = OperatorIdentity::resolve(ADDR, &key).ok().expect("well formed");
        assert_eq!(identity.signer_key(), &KEY_BYTES);
    }
}

#[test]
fn resolve_decodes_extreme_bytes() {
    let identity = OperatorIdentity::resolve(
        "0x00ff0000000000000000000000000000000000a5",
        "ff00000000000000000000000000000000000000000000000000000000000001",
    )
    .ok()
    .expect("well formed");
    let mut address = [0u8; 20];
    address[1] = 0xff;
    address[19] = 0xa5;
    let mut key = [0u8; 32];
    key[0] = 0xff;
    key[31] = 0x01;
    assert_eq!(identity.address(), address);
    assert_eq!(identity.signer_key(), &key);
}

#[test]
fn resolve_refuses_bad_node_id() {
    assert_eq!(fault("", KEY), Some(OperatorConfigError::InvalidNodeId));
    assert_eq!(fault(&ADDR[2..], KEY), Some(OperatorConfigError::InvalidNodeId));
    assert_eq!(fault(&ADDR[..41], KEY), Some(OperatorConfigError::InvalidNodeId));
    assert_eq!(
        fault("0x0f65fe9276bc9a24ae7083ae28e2660ef72df99g", KEY),
        Some(OperatorConfigError::InvalidNodeId)
    );
}

#[test]
fn resolve_refuses_bad_signer_key() {
    assert_eq!(fault(ADDR, ""), Some(OperatorConfigError::InvalidSignerKey));
    assert_eq!(fault(ADDR, &KEY[..63]), Some(OperatorConfigError::InvalidSignerKey));
    assert_eq!(fault(ADDR, &format!("{}00", KEY)), Some(OperatorConfigError::InvalidSignerKey));
    assert_eq!(
        fault(ADDR, &format!("{}zz", &KEY[..62])),
        Some(OperatorConfigError::InvalidSignerKey)
    );
}

#[test]
fn resolve_names_the_node_id_first() {
    assert_eq!(fault("nonsense", "nonsense"), Some(OperatorConfigError::InvalidNodeId));
}

#[test]
fn resolve_succeeds_exactly_on_well_formed_text() {
    let node_ids = [ADDR, "", "0x", &ADDR[2..], "0X0f65fe9276bc9a24ae7083ae28e2660ef72df99e"];
    let keys = [KEY, "", "0x", &KEY[1..], "0x4c0883a69102937d6231471b5dbb6204fe5129617082792ae468d01a3f362318"];
    for node_id in node_ids {
        for key in keys {
            let expected = validate_addr(node_id) && validate_key(key);
            assert_eq!(OperatorIdentity::resolve(node_id, key).is_ok(), expected, "{} {}", node_id, key);
        }
    }
}

fn config_with(node_id: &str, signer_key: &str) -> OperatorConfig {
    let mut config = OperatorConfig::default();
    config.node.node_id = node_id.to_string();
    config.node.signer_key = signer_key.to_string();
    config
}

#[test]
fn from_config_decodes_address_and_key() {
    let identity =
        OperatorIdentity::from_config(&config_with(ADDR, KEY)).ok().expect("well formed");
    assert_eq!(identity.node_id(), ADDR);
    assert_eq!(identity.address(), ADDR_BYTES);
    assert_eq!(identity.signer_key(), &KEY_BYTES);
    let prefixed = format!("0x{}", KEY);
    let identity =
        OperatorIdentity::from_config(&config_with(ADDR, &prefixed)).ok().expect("well formed");
    assert_eq!(identity.signer_key(), &KEY_BYTES);
}

#[test]
fn from_config_names_the_signer_key_first() {
    assert_eq!(
        OperatorIdentity::from_config(&OperatorConfig::default()).err(),
        Some(OperatorConfigError::InvalidSignerKey)
    );
    assert_eq!(
        OperatorIdentity::from_config(&config_with("nonsense", "nonsense")).err(),
        Some(OperatorConfigError::InvalidSignerKey)
    );
    assert_eq!(
        OperatorIdentity::from_config(&config_with(ADDR, &KEY[..63])).err(),
        Some(OperatorConfigError::InvalidSignerKey)
    );
}

#[test]
fn from_config_names_the_node_id_where_the_key_is_sound() {
    assert_eq!(
        OperatorIdentity::from_config(&config_with("", KEY)).err(),
        Some(OperatorConfigError::InvalidNodeId)
    );
    assert_eq!(
        OperatorIdentity::from_config(&config_with(&ADDR[2..], KEY)).err(),
        Some(OperatorConfigError::InvalidNodeId)
    );
}

#[test]
fn from_config_succeeds_where_resolve_does() {
    let node_ids = [ADDR, "", "0x", &ADDR[2..]];
    let keys = [KEY, "", "0x", &KEY[1..]];
    for node_id in node_ids {
        for key in keys {
            assert_eq!(
                OperatorIdentity::from_config(&config_with(node_id, key)).is_ok(),
                OperatorIdentity::resolve(node_id, key).is_ok(),
                "{} {}",
                node_id,
                key
            );
        }
    }
}
