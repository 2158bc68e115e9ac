//! The bootstrap flow: leader election, the per-module transaction plans,
//! batch assembly and the signing-backend calls.

use grid_core::bootstrap::assemble_batch;
use grid_core::bootstrap::make_location_txns;
use grid_core::bootstrap::make_pike_txns;
use grid_core::bootstrap::make_product_txns;
use grid_core::bootstrap::make_purchase_order_txns;
use grid_core::bootstrap::make_schema_txns;
use grid_core::bootstrap::make_upload_contract_txn;
use grid_core::bootstrap::setup_grid;
use grid_core::bootstrap::sign_batch_body;
use grid_core::bootstrap::BootstrapArchives;
use grid_core::bootstrap::ContractArchive;
use grid_core::bootstrap::SetupOutcome;
use grid_core::bootstrap::TxnAction;
use grid_core::error::SetupError;
use grid_core::leader::is_submitter;
use grid_core::signing::bearer_auth_header;
use grid_core::signing::build_jwt;
use grid_core::signing::derive_public_key;

// A valid secp256k1 private key: the scalar one.
const KEY_ONE: &str = "0000000000000000000000000000000000000000000000000000000000000001";

fn archive(name: &str) -> ContractArchive {
    ContractArchive {
        name: name.to_string(),
        version: "1.0.0".to_string(),
        contract: vec![0u8, 1, 2],
    }
}

fn archives() -> BootstrapArchives {
    BootstrapArchives {
        pike: archive("grid-pike"),
        product: archive("grid-product"),
        location: archive("grid-location"),
        schema: archive("grid-schema"),
        purchase_order: archive("grid-purchase-order"),
    }
}

#[test]
fn submitter_is_first_key() {
    let keys = vec!["pub_a".to_string(), "pub_b".to_string()];
    assert!(is_submitter(&"pub_a".to_string(), &keys));
    assert!(!is_submitter(&"pub_b".to_string(), &keys));
}

#[test]
fn empty_admin_list_elects_nobody() {
    let keys: Vec<String> = vec![];
    assert!(!is_submitter(&"pub_a".to_string(), &keys));
}

#[test]
fn derived_public_key_is_the_generator_point() {
    let pk = derive_public_key(KEY_ONE).unwrap();
    assert_eq!(pk, "0279be667ef9dcbbac55a06295ce870b07029bfcdb2dce28d959f2815b16f81798");
}

#[test]
fn invalid_private_key_is_rejected() {
    assert!(derive_public_key("nothing!").is_err());
}

#[test]
fn the_zero_scalar_cannot_sign() {
    let zero = "0000000000000000000000000000000000000000000000000000000000000000";
    assert!(derive_public_key(zero).is_err());
}

#[test]
fn odd_length_key_hex_is_rejected_before_the_backend() {
    assert!(matches!(
        bearer_auth_header("abc"),
        Err(SetupError::InvalidPrivateKey(_))
    ));
    assert!(matches!(
        setup_grid("abc", &vec!["k".to_string()], &archives()),
        Err(SetupError::InvalidPrivateKey(_))
    ));
    assert!(matches!(
        sign_batch_body("abc", vec![1, 2, 3]),
        Err(SetupError::InvalidPrivateKey(_))
    ));
}

#[test]
fn batch_body_signature_is_deterministic_and_keeps_the_body() {
    let body = vec![10u8, 20, 30];
    let once = sign_batch_body(KEY_ONE, body.clone()).unwrap();
    let twice = sign_batch_body(KEY_ONE, body.clone()).unwrap();
    assert_eq!(once.body, body);
    assert_eq!(once.signature, twice.signature);
    assert!(!once.signature.is_empty());
    assert_eq!(once.signer_public_key, derive_public_key(KEY_ONE).unwrap());
}

#[test]
fn different_bodies_get_different_signatures() {
    let a = sign_batch_body(KEY_ONE, vec![1u8, 2, 3]).unwrap();
    let b = sign_batch_body(KEY_ONE, vec![1u8, 2, 4]).unwrap();
    assert_ne!(a.signature, b.signature);
}

#[test]
fn jwt_is_deterministic_for_one_key() {
    let a = build_jwt(KEY_ONE).unwrap();
    let b = build_jwt(KEY_ONE).unwrap();
    assert_eq!(a, b);
    assert_eq!(a.matches('.').count(), 2);
}

#[test]
fn bearer_header_carries_the_token() {
    let token = build_jwt(KEY_ONE).unwrap();
    let header = bearer_auth_header(KEY_ONE).unwrap();
    assert_eq!(header, format!("Bearer Cylinder:{}", token));
}

#[test]
fn upload_txn_addresses_identity_and_own_namespace() {
    let txn = make_upload_contract_txn(&archive("grid-product"), "621dee02");
    match txn {
        TxnAction::UploadContract { name, version, inputs, outputs, contract } => {
            assert_eq!(name, "grid-product");
            assert_eq!(version, "1.0.0");
            assert_eq!(inputs, vec!["cad11d".to_string(), "621dee02".to_string()]);
            assert_eq!(outputs, inputs);
            assert_eq!(contract, vec![0u8, 1, 2]);
        }
        _ => panic!("expected an upload action"),
    }
}

fn grant_names(txns: &[TxnAction]) -> Vec<(String, String)> {
    txns.iter()
        .filter_map(|t| match t {
            TxnAction::CreateNamespaceRegistryPermission { namespace, contract_name, read, write } => {
                assert!(*read && *write);
                Some((namespace.clone(), contract_name.clone()))
            }
            _ => None,
        })
        .collect()
}

#[test]
fn pike_module_builds_four_ordered_txns() {
    let mut txns: Vec<TxnAction> = Vec::new();
    make_pike_txns(&mut txns, &archive("grid-pike"), &"pk".to_string());
    assert_eq!(txns.len(), 4);
    assert!(matches!(&txns[0], TxnAction::CreateContractRegistry { name, owners }
        if name == "grid-pike" && owners == &vec!["pk".to_string()]));
    assert!(matches!(&txns[1], TxnAction::UploadContract { name, .. } if name == "grid-pike"));
    assert!(matches!(&txns[2], TxnAction::CreateNamespaceRegistry { namespace, .. }
        if namespace == "cad11d"));
    assert_eq!(grant_names(&txns), vec![("cad11d".to_string(), "grid-pike".to_string())]);
}

#[test]
fn product_module_grants_identity_and_schema_namespaces() {
    let mut txns: Vec<TxnAction> = Vec::new();
    make_product_txns(&mut txns, &archive("grid-product"), &"pk".to_string());
    assert_eq!(txns.len(), 6);
    assert_eq!(
        grant_names(&txns),
        vec![
            ("621dee02".to_string(), "grid-product".to_string()),
            ("cad11d".to_string(), "grid-product".to_string()),
            ("621dee01".to_string(), "grid-product".to_string()),
        ]
    );
}

#[test]
fn every_grant_follows_its_contract_upload() {
    let mut txns: Vec<TxnAction> = Vec::new();
    let pk = "pk".to_string();
    make_pike_txns(&mut txns, &archive("grid-pike"), &pk);
    make_product_txns(&mut txns, &archive("grid-product"), &pk);
    make_location_txns(&mut txns, &archive("grid-location"), &pk);
    make_schema_txns(&mut txns, &archive("grid-schema"), &pk);
    make_purchase_order_txns(&mut txns, &archive("grid-purchase-order"), &pk);
    assert_eq!(txns.len(), 26);
    for (j, t) in txns.iter().enumerate() {
        if let TxnAction::CreateNamespaceRegistryPermission { contract_name, .. } = t {
            let upload = txns[..j].iter().position(|u| {
                matches!(u, TxnAction::UploadContract { name, .. } if name == contract_name)
            });
            assert!(upload.is_some(), "grant at {} has no earlier upload", j);
        }
    }
}

#[test]
fn assembly_preserves_order_and_is_deterministic() {
    let lists = || {
        let mut a: Vec<TxnAction> = Vec::new();
        make_pike_txns(&mut a, &archive("grid-pike"), &"pk".to_string());
        let mut b: Vec<TxnAction> = Vec::new();
        make_schema_txns(&mut b, &archive("grid-schema"), &"pk".to_string());
        vec![a, b]
    };
    let once = assemble_batch(lists());
    let twice = assemble_batch(lists());
    assert_eq!(once.len(), 9);
    let names = |txns: &[TxnAction]| -> Vec<String> {
        txns.iter()
            .map(|t| match t {
                TxnAction::CreateContractRegistry { name, .. } => format!("reg:{}", name),
                TxnAction::UploadContract { name, .. } => format!("up:{}", name),
                TxnAction::CreateNamespaceRegistry { namespace, .. } => format!("ns:{}", namespace),
                TxnAction::CreateNamespaceRegistryPermission { namespace, contract_name, .. } => {
                    format!("perm:{}:{}", namespace, contract_name)
                }
            })
            .collect()
    };
    assert_eq!(names(&once), names(&twice));
    assert_eq!(names(&once)[0], "reg:grid-pike");
    assert_eq!(names(&once)[4], "reg:grid-schema");
}

#[test]
fn elected_node_builds_batch_and_header() {
    let pk = derive_public_key(KEY_ONE).unwrap();
    let outcome = setup_grid(KEY_ONE, &vec![pk, "pub_b".to_string()], &archives()).unwrap();
    match outcome {
        SetupOutcome::Submit(batch) => {
            assert_eq!(batch.transactions.len(), 26);
            assert!(batch.auth.starts_with("Bearer Cylinder:"));
        }
        SetupOutcome::NotSubmitter => panic!("the first key must submit"),
    }
}

#[test]
fn unelected_node_builds_nothing() {
    let outcome = setup_grid(KEY_ONE, &vec!["pub_b".to_string()], &archives()).unwrap();
    assert!(matches!(outcome, SetupOutcome::NotSubmitter));
}

#[test]
fn setup_grid_rejects_a_bad_key() {
    assert!(setup_grid("zz", &vec!["k".to_string()], &archives()).is_err());
}
