use sui_rpc::bridge_error::{BridgeAuthorityPublicKeyBytes, BridgeError, BridgeResult};
use sui_rpc::query::{
    bad_type_error, checkpoint_lookup, epoch_lookup, service_config_unavailable, CheckpointId,
    CheckpointLookup, EpochLookup, QueryError,
};
use sui_rpc::rpc_doc::{sui_rpc_doc, RpcDocModule};

#[test]
fn sui_rpc_doc_describes_the_api() {
    let doc = sui_rpc_doc("0.29.0");
    assert_eq!(doc.info.version, "0.29.0");
    assert_eq!(doc.info.title, "Sui JSON-RPC");
    assert_eq!(
        doc.info.description,
        "Sui JSON-RPC API for interaction with Sui Full node. Make RPC calls using https://fullnode.NETWORK.sui.io:443, where NETWORK is the network you want to use (testnet, devnet, mainnet). By default, local networks use port 9000."
    );
    assert_eq!(doc.info.contact_name, "Mysten Labs");
    assert_eq!(doc.info.contact_url, "https://mystenlabs.com");
    assert_eq!(doc.info.contact_email, "build@mystenlabs.com");
    assert_eq!(doc.info.license_name, "Apache-2.0");
    assert_eq!(
        doc.info.license_url,
        "https://raw.githubusercontent.com/MystenLabs/sui/main/LICENSE"
    );
    assert!(doc.modules.is_empty());
}

#[test]
fn add_module_appends() {
    let mut doc = sui_rpc_doc("1");
    doc.add_module(RpcDocModule { methods: vec!["a".to_string()], method_routing: Vec::new() });
    doc.add_module(RpcDocModule { methods: vec!["b".to_string(), "c".to_string()], method_routing: Vec::new() });
    assert_eq!(doc.modules.len(), 2);
    assert_eq!(doc.modules[0].methods, vec!["a".to_string()]);
    assert_eq!(doc.modules[1].methods, vec!["b".to_string(), "c".to_string()]);
    assert_eq!(doc.info.version, "1");
}

#[test]
fn epoch_by_id_or_latest() {
    assert_eq!(epoch_lookup(Some(42)), EpochLookup::ById(42));
    assert_eq!(epoch_lookup(None), EpochLookup::Latest);
}

#[test]
fn checkpoint_without_id_is_latest() {
    assert_eq!(checkpoint_lookup(None), Ok(CheckpointLookup::Latest));
}

#[test]
fn checkpoint_by_digest_or_sequence_number() {
    assert_eq!(
        checkpoint_lookup(Some(CheckpointId { digest: Some("abc".to_string()), sequence_number: None })),
        Ok(CheckpointLookup::ByIdentifier { digest: Some("abc".to_string()), sequence_number: None })
    );
    assert_eq!(
        checkpoint_lookup(Some(CheckpointId { digest: None, sequence_number: Some(9) })),
        Ok(CheckpointLookup::ByIdentifier { digest: None, sequence_number: Some(9) })
    );
    assert_eq!(
        checkpoint_lookup(Some(CheckpointId { digest: None, sequence_number: None })),
        Ok(CheckpointLookup::ByIdentifier { digest: None, sequence_number: None })
    );
}

#[test]
fn checkpoint_by_both_is_refused() {
    assert_eq!(
        checkpoint_lookup(Some(CheckpointId { digest: Some("abc".to_string()), sequence_number: Some(9) })),
        Err(QueryError::InvalidCheckpointQuery)
    );
}

#[test]
fn bad_type_message() {
    assert_eq!(
        bad_type_error("unexpected token"),
        QueryError::Client("Bad type: unexpected token".to_string())
    );
}

#[test]
fn service_config_message() {
    assert_eq!(
        service_config_unavailable(),
        QueryError::Internal("Unable to fetch service configuration.".to_string())
    );
}

#[test]
fn bridge_errors_clone_and_carry_their_data() {
    let key = BridgeAuthorityPublicKeyBytes(vec![2, 3, 4]);
    let e = BridgeError::InvalidBridgeAuthoritySignature(key.clone(), "bad sig".to_string());
    let r: BridgeResult<u8> = Err(e.clone());
    match r {
        Err(BridgeError::InvalidBridgeAuthoritySignature(k, m)) => {
            assert_eq!(k, key);
            assert_eq!(m, "bad sig");
        }
        _ => panic!("wrong variant"),
    }
    assert!(format!("{:?}", BridgeError::TxNotFound).contains("TxNotFound"));
    assert!(matches!(BridgeError::Generic("x".to_string()).clone(), BridgeError::Generic(s) if s == "x"));
}
