use ethers::abi::{parse_abi, Abi, Constructor, Param, ParamType};
use ganache_harness::account::{Construction, ConstructionEvent, GanacheAccount};
use ganache_harness::deploy::{
    plan_transaction, CompiledArtifact, Deployment, DeploymentAction, DeploymentEvent,
    DeploymentTransaction, Envelope, DEPLOY_GAS_LIMIT, DEPLOY_GAS_PRICE,
};
use ganache_harness::encoding::{
    check_arguments_fit, check_arguments_small, check_tuples_fit, spend_words, AbiType, AbiValue,
    MAX_ENCODED_WORDS,
};
use ganache_harness::error::{ArtifactPart, HarnessError};
use ganache_harness::node::NodeReport;
use ganache_harness::wallet::{AccountKey, Wallet};

const SEED: &str = "test test test test test test test test test test test junk";

fn small_key(last: u8) -> [u8; 32] {
    let mut bytes = [0u8; 32];
    bytes[31] = last;
    bytes
}

fn harness_with(keys: Vec<[u8; 32]>, chain_id: u64) -> GanacheAccount {
    let report = NodeReport {
        endpoint: "http://localhost:8545".to_string(),
        ws_endpoint: "ws://localhost:8545".to_string(),
        keys,
    };
    let started = GanacheAccount::new_from_seed_with_http(SEED.to_string());
    let spawned = started.on_event(ConstructionEvent::Spawned { report });
    match spawned.on_event(ConstructionEvent::ChainId { words: [chain_id, 0, 0, 0] }) {
        Construction::Ready { account } => account,
        other => panic!("not ready: {:?}", other),
    }
}

fn harness() -> GanacheAccount {
    harness_with(vec![small_key(1), small_key(2)], 1337)
}

fn bytecode() -> Vec<u8> {
    vec![0x60, 0x80, 0x60, 0x40, 0x52, 0x34, 0x80, 0x15, 0x00]
}

fn plain_interface() -> Abi {
    parse_abi(&["function get() view returns (uint256)"]).unwrap()
}

fn counter_interface() -> Abi {
    parse_abi(&["constructor(uint256 initial)", "function get() view returns (uint256)"]).unwrap()
}

fn interface_taking(kinds: Vec<ParamType>) -> Abi {
    let inputs = kinds
        .into_iter()
        .map(|kind| Param { name: "p".to_string(), kind, internal_type: None })
        .collect();
    Abi { constructor: Some(Constructor { inputs }), ..Abi::default() }
}

fn uint(value: u64) -> AbiValue {
    AbiValue::Uint([value, 0, 0, 0])
}

fn word(value: u8) -> Vec<u8> {
    let mut bytes = vec![0u8; 31];
    bytes.push(value);
    bytes
}

fn artifact(interface: Option<Abi>, code: Option<Vec<u8>>) -> CompiledArtifact {
    CompiledArtifact { interface, bytecode: code, deployed_bytecode: None }
}

fn deploy(interface: Abi, args: Vec<AbiValue>) -> Deployment {
    harness().deploy_contract(artifact(Some(interface), Some(bytecode())), args)
}

fn signer() -> Wallet {
    Wallet::from_key(AccountKey::from_bytes(small_key(1)).unwrap()).with_chain_id(1337)
}

fn failure_of(deployment: &Deployment) -> HarnessError {
    match deployment {
        Deployment::Failed { error } => error.clone(),
        other => panic!("not failed: {:?}", other),
    }
}

fn payload_of(deployment: &Deployment) -> Vec<u8> {
    match deployment {
        Deployment::Signed { transaction, .. } => transaction.payload.clone(),
        other => panic!("not signed: {:?}", other),
    }
}

fn refused_by_the_encoding() -> HarnessError {
    HarnessError::EncodingFailure { detail: Some("Invalid data".to_string()) }
}

#[test]
fn gas_override_is_as_decided() {
    assert_eq!(DEPLOY_GAS_LIMIT, 20_000_000);
    assert_eq!(DEPLOY_GAS_PRICE, 42_000_000_000);
}

#[test]
fn artifact_comes_apart_as_given() {
    let whole = CompiledArtifact {
        interface: Some(plain_interface()),
        bytecode: Some(bytecode()),
        deployed_bytecode: Some(vec![1, 2, 3]),
    };
    let (interface, code, deployed) = whole.into_parts();
    assert_eq!(interface, Some(plain_interface()));
    assert_eq!(code, Some(bytecode()));
    assert_eq!(deployed, Some(vec![1, 2, 3]));
    let (interface, code, deployed) = artifact(None, None).into_parts();
    assert!(interface.is_none() && code.is_none() && deployed.is_none());
}

#[test]
fn missing_interface_is_an_invalid_artifact() {
    let started = harness().deploy_contract(artifact(None, Some(bytecode())), Vec::new());
    assert_eq!(
        failure_of(&started),
        HarnessError::InvalidArtifact { missing: ArtifactPart::Interface }
    );
    assert_eq!(started.action(), DeploymentAction::Stop);
}

#[test]
fn missing_bytecode_is_an_invalid_artifact() {
    let started = harness().deploy_contract(artifact(Some(plain_interface()), None), Vec::new());
    assert_eq!(
        failure_of(&started),
        HarnessError::InvalidArtifact { missing: ArtifactPart::Bytecode }
    );
    assert_eq!(started.action(), DeploymentAction::Stop);
}

#[test]
fn with_both_parts_missing_the_interface_is_named() {
    let started = harness().deploy_contract(artifact(None, None), Vec::new());
    assert_eq!(
        failure_of(&started),
        HarnessError::InvalidArtifact { missing: ArtifactPart::Interface }
    );
}

#[test]
fn an_invalid_artifact_never_comes_to_a_submission() {
    let mut state = harness().deploy_contract(artifact(None, Some(bytecode())), Vec::new());
    let reports = vec![
        DeploymentEvent::Accepted,
        DeploymentEvent::Mined { created: Some([7u8; 20]) },
        DeploymentEvent::Rejected { detail: "too late".to_string() },
        DeploymentEvent::TimedOut { detail: None },
    ];
    for report in reports {
        state = state.on_event(report);
        assert_ne!(state.action(), DeploymentAction::Submit);
        assert_eq!(
            failure_of(&state),
            HarnessError::InvalidArtifact { missing: ArtifactPart::Interface }
        );
    }
}

#[test]
fn a_harness_without_accounts_cannot_deploy() {
    let empty = harness_with(Vec::new(), 1337);
    let started =
        empty.deploy_contract(artifact(Some(plain_interface()), Some(bytecode())), Vec::new());
    assert_eq!(failure_of(&started), HarnessError::NotFound);
}

#[test]
fn missing_accounts_are_reported_before_arguments_that_do_not_fit() {
    let empty = harness_with(Vec::new(), 1337);
    let started = empty.deploy_contract(
        artifact(Some(counter_interface()), Some(bytecode())),
        vec![AbiValue::Bool(true)],
    );
    assert_eq!(failure_of(&started), HarnessError::NotFound);
}

#[test]
fn an_invalid_artifact_is_reported_before_missing_accounts() {
    let empty = harness_with(Vec::new(), 1337);
    let started = empty.deploy_contract(artifact(Some(plain_interface()), None), Vec::new());
    assert_eq!(
        failure_of(&started),
        HarnessError::InvalidArtifact { missing: ArtifactPart::Bytecode }
    );
}

#[test]
fn trivial_contract_comes_to_a_signed_transaction() {
    let account = harness();
    let started =
        account.deploy_contract(artifact(Some(plain_interface()), Some(bytecode())), Vec::new());
    assert_eq!(started.action(), DeploymentAction::Submit);
    match started {
        Deployment::Signed { interface, signer, transaction } => {
            assert_eq!(interface, plain_interface());
            assert_eq!(signer.chain_id(), 1337);
            assert_eq!(signer.key().to_bytes(), small_key(1));
            assert_eq!(signer.address(), account.get_default_wallet().unwrap().address());
            assert_eq!(transaction.payload, bytecode());
            assert_eq!(transaction.gas_limit, Some(20_000_000));
            assert_eq!(transaction.gas_price, Some(42_000_000_000));
            assert_eq!(transaction.envelope, Envelope::Legacy);
        }
        other => panic!("unexpected state: {:?}", other),
    }
}

#[test]
fn trivial_contract_is_confirmed_with_its_gas_recorded() {
    let signed = deploy(plain_interface(), Vec::new());
    let broadcast = signed.on_event(DeploymentEvent::Accepted);
    assert_eq!(broadcast.action(), DeploymentAction::AwaitConfirmation);
    assert!(matches!(broadcast, Deployment::Broadcast { .. }));
    let mut address = [0u8; 20];
    address[0] = 0x5f;
    address[19] = 0xa3;
    let confirmed = broadcast.on_event(DeploymentEvent::Mined { created: Some(address) });
    assert_eq!(confirmed.action(), DeploymentAction::Stop);
    match confirmed {
        Deployment::Confirmed { contract } => {
            assert_ne!(contract.address, [0u8; 20]);
            assert_eq!(contract.address, address);
            assert_eq!(contract.interface, plain_interface());
            assert_eq!(contract.signer.chain_id(), 1337);
            assert_eq!(contract.signer.key().to_bytes(), small_key(1));
            assert_eq!(contract.transaction.gas_limit, Some(20_000_000));
            assert_eq!(contract.transaction.gas_price, Some(42_000_000_000));
            assert_eq!(contract.transaction.envelope, Envelope::Legacy);
            assert_eq!(contract.transaction.payload, bytecode());
        }
        other => panic!("unexpected state: {:?}", other),
    }
}

#[test]
fn integer_argument_is_encoded_behind_the_bytecode() {
    let started = deploy(counter_interface(), vec![uint(42)]);
    let mut expected = bytecode();
    expected.extend_from_slice(&word(42));
    match started {
        Deployment::Signed { transaction, .. } => {
            assert_eq!(transaction.payload, expected);
            assert_eq!(transaction.payload.len(), bytecode().len() + 32);
            assert_eq!(transaction.gas_limit, Some(DEPLOY_GAS_LIMIT));
            assert_eq!(transaction.gas_price, Some(DEPLOY_GAS_PRICE));
        }
        other => panic!("unexpected state: {:?}", other),
    }
}

#[test]
fn high_words_of_an_integer_come_first() {
    let started = deploy(counter_interface(), vec![AbiValue::Uint([4, 3, 2, 1])]);
    let mut expected = bytecode();
    for high_to_low in [1u8, 2, 3, 4] {
        expected.extend_from_slice(&[0, 0, 0, 0, 0, 0, 0, high_to_low]);
    }
    assert_eq!(payload_of(&started), expected);
}

#[test]
fn every_kind_of_argument_is_handed_on() {
    let interface = interface_taking(vec![
        ParamType::Address,
        ParamType::FixedBytes(2),
        ParamType::Int(256),
        ParamType::Bool,
        ParamType::FixedArray(Box::new(ParamType::Uint(8)), 2),
        ParamType::Tuple(vec![ParamType::Uint(256), ParamType::Bool]),
    ]);
    let args = vec![
        AbiValue::Address([0xaa; 20]),
        AbiValue::FixedBytes(vec![0xbe, 0xef]),
        AbiValue::Int([u64::MAX; 4]),
        AbiValue::Bool(true),
        AbiValue::FixedArray(vec![uint(1), uint(2)]),
        AbiValue::Tuple(vec![uint(3), AbiValue::Bool(false)]),
    ];
    let mut expected = bytecode();
    expected.extend_from_slice(&[0u8; 12]);
    expected.extend_from_slice(&[0xaa; 20]);
    expected.extend_from_slice(&[0xbe, 0xef]);
    expected.extend_from_slice(&[0u8; 30]);
    expected.extend_from_slice(&[0xff; 32]);
    expected.extend_from_slice(&word(1));
    expected.extend_from_slice(&word(1));
    expected.extend_from_slice(&word(2));
    expected.extend_from_slice(&word(3));
    expected.extend_from_slice(&word(0));
    assert_eq!(payload_of(&deploy(interface, args)), expected);
}

#[test]
fn text_bytes_and_arrays_are_handed_on() {
    let interface = interface_taking(vec![
        ParamType::String,
        ParamType::Bytes,
        ParamType::Array(Box::new(ParamType::Uint(256))),
    ]);
    let args = vec![
        AbiValue::String("hi".to_string()),
        AbiValue::Bytes(vec![9]),
        AbiValue::Array(vec![uint(5)]),
    ];
    let mut expected = bytecode();
    expected.extend_from_slice(&word(0x60));
    expected.extend_from_slice(&word(0xa0));
    expected.extend_from_slice(&word(0xe0));
    expected.extend_from_slice(&word(2));
    expected.extend_from_slice(b"hi");
    expected.extend_from_slice(&[0u8; 30]);
    expected.extend_from_slice(&word(1));
    expected.push(9);
    expected.extend_from_slice(&[0u8; 31]);
    expected.extend_from_slice(&word(1));
    expected.extend_from_slice(&word(5));
    assert_eq!(payload_of(&deploy(interface, args)), expected);
}

#[test]
fn mismatched_argument_type_is_an_encoding_failure() {
    let started = deploy(counter_interface(), vec![AbiValue::String("forty-two".to_string())]);
    assert_eq!(failure_of(&started), refused_by_the_encoding());
    assert_eq!(started.action(), DeploymentAction::Stop);
    let later = started.on_event(DeploymentEvent::Accepted);
    assert_eq!(failure_of(&later), refused_by_the_encoding());
}

#[test]
fn a_boolean_for_an_integer_is_an_encoding_failure() {
    let started = deploy(counter_interface(), vec![AbiValue::Bool(true)]);
    assert_eq!(failure_of(&started), refused_by_the_encoding());
}

#[test]
fn a_missing_argument_is_an_encoding_failure() {
    let started = deploy(counter_interface(), Vec::new());
    assert_eq!(failure_of(&started), refused_by_the_encoding());
}

#[test]
fn an_argument_without_a_constructor_is_an_encoding_failure() {
    let started = deploy(plain_interface(), vec![uint(1)]);
    assert_eq!(
        failure_of(&started),
        HarnessError::EncodingFailure {
            detail: Some("constructor is not defined in the ABI".to_string())
        }
    );
}

#[test]
fn a_tuple_longer_than_its_parameter_is_an_encoding_failure() {
    let interface = interface_taking(vec![ParamType::Tuple(vec![ParamType::Uint(256)])]);
    let started = deploy(interface, vec![AbiValue::Tuple(vec![uint(1), uint(2)])]);
    assert_eq!(failure_of(&started), HarnessError::EncodingFailure { detail: None });
    assert_eq!(started.action(), DeploymentAction::Stop);
}

#[test]
fn a_longer_tuple_inside_an_array_is_an_encoding_failure() {
    let interface = interface_taking(vec![ParamType::Array(Box::new(ParamType::Tuple(vec![
        ParamType::Uint(256),
        ParamType::Bool,
    ])))]);
    let fitting = AbiValue::Tuple(vec![uint(1), AbiValue::Bool(true)]);
    let longer = AbiValue::Tuple(vec![uint(1), AbiValue::Bool(true), uint(3)]);
    let started = deploy(interface, vec![AbiValue::Array(vec![fitting, longer])]);
    assert_eq!(failure_of(&started), HarnessError::EncodingFailure { detail: None });
}

#[test]
fn a_longer_tuple_inside_a_tuple_is_an_encoding_failure() {
    let interface = interface_taking(vec![ParamType::Tuple(vec![
        ParamType::Bool,
        ParamType::Tuple(Vec::new()),
    ])]);
    let inner = AbiValue::Tuple(vec![uint(1)]);
    let started = deploy(interface, vec![AbiValue::Tuple(vec![AbiValue::Bool(true), inner])]);
    assert_eq!(failure_of(&started), HarnessError::EncodingFailure { detail: None });
}

#[test]
fn a_longer_tuple_behind_a_mismatch_is_an_encoding_failure() {
    let interface =
        interface_taking(vec![ParamType::Tuple(vec![ParamType::Uint(256)]), ParamType::Bool]);
    let args = vec![AbiValue::Tuple(vec![AbiValue::Bool(true), uint(2)]), AbiValue::Bool(true)];
    let started = deploy(interface, args);
    assert_eq!(failure_of(&started), HarnessError::EncodingFailure { detail: None });
}

#[test]
fn a_tuple_for_another_type_is_left_to_the_encoding() {
    let started = deploy(counter_interface(), vec![AbiValue::Tuple(vec![uint(1), uint(2)])]);
    assert_eq!(failure_of(&started), refused_by_the_encoding());
}

#[test]
fn a_longer_tuple_among_too_many_arguments_is_left_to_the_encoding() {
    let interface = interface_taking(vec![ParamType::Tuple(vec![ParamType::Uint(256)])]);
    let args = vec![AbiValue::Tuple(vec![uint(1), uint(2)]), uint(3)];
    assert_eq!(failure_of(&deploy(interface, args)), refused_by_the_encoding());
}

#[test]
fn a_fitting_tuple_is_encoded() {
    let interface =
        interface_taking(vec![ParamType::Tuple(vec![ParamType::Uint(256), ParamType::Bool])]);
    let started = deploy(interface, vec![AbiValue::Tuple(vec![uint(7), AbiValue::Bool(true)])]);
    let mut expected = bytecode();
    expected.extend_from_slice(&word(7));
    expected.extend_from_slice(&word(1));
    assert_eq!(payload_of(&started), expected);
}

#[test]
fn tuples_are_tested_level_by_level() {
    let pair = AbiType::Tuple(vec![AbiType::Uint(256), AbiType::Bool]);
    let fitting = AbiValue::Tuple(vec![uint(1), AbiValue::Bool(true)]);
    let shorter = AbiValue::Tuple(vec![uint(1)]);
    let longer = AbiValue::Tuple(vec![uint(1), AbiValue::Bool(true), uint(3)]);
    assert!(check_tuples_fit(&fitting, &pair));
    assert!(check_tuples_fit(&shorter, &pair));
    assert!(!check_tuples_fit(&longer, &pair));
    assert!(check_tuples_fit(&longer, &AbiType::Bool));
    assert!(check_tuples_fit(&uint(1), &pair));
    let pairs = AbiType::Array(Box::new(AbiType::Tuple(vec![AbiType::Uint(256), AbiType::Bool])));
    let three = AbiValue::Tuple(vec![uint(1), uint(2), uint(3)]);
    assert!(!check_tuples_fit(&AbiValue::Array(vec![three]), &pairs));
    assert!(check_tuples_fit(&AbiValue::Array(Vec::new()), &pairs));
    let two_pairs =
        AbiType::FixedArray(Box::new(AbiType::Tuple(vec![AbiType::Uint(256), AbiType::Bool])), 2);
    let three = AbiValue::Tuple(vec![uint(1), uint(2), uint(3)]);
    assert!(!check_tuples_fit(&AbiValue::FixedArray(vec![three]), &two_pairs));
    let three = AbiValue::Tuple(vec![uint(1), uint(2), uint(3)]);
    assert!(check_tuples_fit(&AbiValue::Array(vec![three]), &two_pairs));
}

#[test]
fn arguments_are_tested_only_against_as_many_types() {
    let one = Some(vec![AbiType::Tuple(vec![AbiType::Bool])]);
    let longer = || AbiValue::Tuple(vec![AbiValue::Bool(true), AbiValue::Bool(false)]);
    assert!(!check_arguments_fit(&vec![longer()], &one));
    assert!(check_arguments_fit(&vec![longer(), longer()], &one));
    assert!(check_arguments_fit(&Vec::new(), &one));
    assert!(check_arguments_fit(&vec![longer()], &None));
    assert!(check_arguments_fit(&vec![AbiValue::Tuple(vec![AbiValue::Bool(true)])], &one));
}

#[test]
fn words_are_counted_from_above() {
    assert_eq!(MAX_ENCODED_WORDS, 16_777_216);
    assert_eq!(spend_words(&uint(1), 10), Some(9));
    assert_eq!(spend_words(&AbiValue::Bool(true), 1), Some(0));
    assert_eq!(spend_words(&AbiValue::Address([1; 20]), 0), None);
    assert_eq!(spend_words(&AbiValue::Int([0; 4]), 5), Some(4));
    assert_eq!(spend_words(&AbiValue::Bytes(vec![0; 64]), 10), Some(5));
    assert_eq!(spend_words(&AbiValue::FixedBytes(vec![0; 31]), 10), Some(7));
    assert_eq!(spend_words(&AbiValue::Bytes(Vec::new()), 2), None);
    assert_eq!(spend_words(&AbiValue::String("h\u{e9}".to_string()), 10), Some(7));
    assert_eq!(spend_words(&AbiValue::String("x".repeat(32)), 10), Some(6));
    let pair = AbiValue::Tuple(vec![uint(1), AbiValue::Bytes(vec![0; 32])]);
    assert_eq!(spend_words(&pair, 10), Some(3));
    assert_eq!(spend_words(&pair, 7), Some(0));
    assert_eq!(spend_words(&pair, 6), None);
    let nested = AbiValue::Array(vec![AbiValue::FixedArray(vec![uint(1), uint(2)]), uint(3)]);
    assert_eq!(spend_words(&nested, 100), Some(93));
    assert_eq!(spend_words(&AbiValue::Array(Vec::new()), 1), None);
}

#[test]
fn arguments_past_the_size_limit_are_an_encoding_failure() {
    let large = || AbiValue::Bytes(vec![0u8; 32 * MAX_ENCODED_WORDS]);
    assert!(!check_arguments_small(&vec![large()]));
    assert!(check_arguments_small(&vec![AbiValue::Bytes(vec![0u8; 1024]), uint(1)]));
    assert!(check_arguments_small(&Vec::new()));
    let interface = interface_taking(vec![ParamType::Bytes]);
    assert_eq!(
        failure_of(&deploy(interface, vec![large()])),
        HarnessError::EncodingFailure { detail: None }
    );
}

#[test]
fn arguments_at_the_size_limit_are_small() {
    let mut args = vec![AbiValue::Bytes(vec![0u8; 32 * (MAX_ENCODED_WORDS - 3)])];
    assert!(check_arguments_small(&args));
    args = vec![AbiValue::Bytes(vec![0u8; 32 * (MAX_ENCODED_WORDS - 2)])];
    assert!(!check_arguments_small(&args));
    args = vec![AbiValue::Bytes(vec![0u8; 32 * (MAX_ENCODED_WORDS - 3) - 1]), uint(1)];
    assert!(check_arguments_small(&args));
    args.push(uint(2));
    assert!(!check_arguments_small(&args));
}

#[test]
fn the_pipeline_can_be_walked_step_by_step() {
    let unbuilt =
        Deployment::new(artifact(Some(counter_interface()), Some(bytecode())), vec![uint(7)]);
    assert_eq!(unbuilt.action(), DeploymentAction::Proceed);
    assert!(matches!(unbuilt, Deployment::Unbuilt { .. }));
    let built = unbuilt.build();
    assert_eq!(built.action(), DeploymentAction::Proceed);
    match &built {
        Deployment::Built { interface, bytecode: code, args } => {
            assert_eq!(*interface, counter_interface());
            assert_eq!(*code, bytecode());
            assert_eq!(*args, vec![uint(7)]);
        }
        other => panic!("unexpected state: {:?}", other),
    }
    let signed = built.sign(signer());
    assert_eq!(signed.action(), DeploymentAction::Submit);
    match signed {
        Deployment::Signed { signer, transaction, .. } => {
            assert_eq!(signer.chain_id(), 1337);
            assert_eq!(transaction.payload[..bytecode().len()], bytecode()[..]);
            assert_eq!(transaction.payload[transaction.payload.len() - 1], 7);
        }
        other => panic!("unexpected state: {:?}", other),
    }
}

#[test]
fn steps_out_of_turn_change_nothing() {
    let unbuilt = Deployment::new(artifact(Some(plain_interface()), Some(bytecode())), Vec::new());
    let still = unbuilt.sign(signer());
    assert!(matches!(still, Deployment::Unbuilt { .. }));
    let still = still.on_event(DeploymentEvent::Accepted);
    assert!(matches!(still, Deployment::Unbuilt { .. }));
    let built = still.build();
    let still = built.build();
    assert!(matches!(still, Deployment::Built { .. }));
    let still = still.on_event(DeploymentEvent::Mined { created: Some([1u8; 20]) });
    assert!(matches!(still, Deployment::Built { .. }));
    let signed = still.sign(signer());
    let still = signed.build().sign(signer());
    assert!(matches!(still, Deployment::Signed { .. }));
    let still = still.on_event(DeploymentEvent::Mined { created: Some([1u8; 20]) });
    assert!(matches!(still, Deployment::Signed { .. }));
    let still = still.on_event(DeploymentEvent::TimedOut { detail: None });
    assert!(matches!(still, Deployment::Signed { .. }));
    let broadcast = still.on_event(DeploymentEvent::Accepted);
    let still = broadcast.on_event(DeploymentEvent::Accepted);
    assert!(matches!(still, Deployment::Broadcast { .. }));
    let still = still.on_event(DeploymentEvent::Rejected { detail: "late".to_string() });
    assert!(matches!(still, Deployment::Broadcast { .. }));
}

#[test]
fn a_rejected_transaction_fails_with_the_nodes_words() {
    let words = "insufficient funds for gas * price + value";
    let signed = deploy(plain_interface(), Vec::new());
    let failed = signed.on_event(DeploymentEvent::Rejected { detail: words.to_string() });
    assert_eq!(failure_of(&failed), HarnessError::BroadcastFailure { detail: words.to_string() });
    assert_eq!(failed.action(), DeploymentAction::Stop);
    let later = failed
        .on_event(DeploymentEvent::Accepted)
        .on_event(DeploymentEvent::Rejected { detail: "again".to_string() })
        .on_event(DeploymentEvent::Mined { created: Some([9u8; 20]) });
    assert_eq!(later.action(), DeploymentAction::Stop);
    assert_eq!(failure_of(&later), HarnessError::BroadcastFailure { detail: words.to_string() });
}

#[test]
fn a_wait_that_runs_out_is_a_confirmation_timeout() {
    let signed = deploy(plain_interface(), Vec::new());
    let failed = signed.on_event(DeploymentEvent::Accepted).on_event(DeploymentEvent::TimedOut { detail: None });
    assert_eq!(failure_of(&failed), HarnessError::ConfirmationTimeout { detail: None });
    let later = failed.on_event(DeploymentEvent::Mined { created: Some([9u8; 20]) });
    assert_eq!(failure_of(&later), HarnessError::ConfirmationTimeout { detail: None });
}

#[test]
fn a_wait_that_ends_on_an_error_fails_with_the_nodes_words() {
    let words = Some("connection reset by peer".to_string());
    let signed = deploy(plain_interface(), Vec::new());
    let failed = signed
        .on_event(DeploymentEvent::Accepted)
        .on_event(DeploymentEvent::TimedOut { detail: words.clone() });
    assert_eq!(failure_of(&failed), HarnessError::ConfirmationTimeout { detail: words });
    assert_eq!(failed.action(), DeploymentAction::Stop);
}

#[test]
fn a_transaction_mined_without_a_contract_confirms_none() {
    let signed = deploy(plain_interface(), Vec::new());
    let failed = signed
        .on_event(DeploymentEvent::Accepted)
        .on_event(DeploymentEvent::Mined { created: None });
    assert_eq!(failure_of(&failed), HarnessError::ConfirmationTimeout { detail: None });
    assert_eq!(failed.action(), DeploymentAction::Stop);
}

#[test]
fn a_confirmed_deployment_stays_confirmed() {
    let signed = deploy(plain_interface(), Vec::new());
    let confirmed = signed
        .on_event(DeploymentEvent::Accepted)
        .on_event(DeploymentEvent::Mined { created: Some([3u8; 20]) });
    let later = confirmed
        .on_event(DeploymentEvent::TimedOut { detail: None })
        .on_event(DeploymentEvent::Rejected { detail: "late".to_string() })
        .on_event(DeploymentEvent::Mined { created: Some([4u8; 20]) })
        .on_event(DeploymentEvent::Mined { created: None })
        .build()
        .sign(signer());
    match later {
        Deployment::Confirmed { contract } => assert_eq!(contract.address, [3u8; 20]),
        other => panic!("unexpected state: {:?}", other),
    }
}

#[test]
fn transaction_is_first_built_without_gas() {
    let tx = DeploymentTransaction::new(vec![1, 2, 3]);
    assert_eq!(tx.payload, vec![1, 2, 3]);
    assert_eq!(tx.gas_limit, None);
    assert_eq!(tx.gas_price, None);
    assert_eq!(tx.envelope, Envelope::FeeMarket);
}

#[test]
fn gas_setters_set_one_parameter_each() {
    let mut tx = DeploymentTransaction::new(vec![1, 2, 3]);
    tx.set_gas(21_000);
    assert_eq!(tx.gas_limit, Some(21_000));
    assert_eq!(tx.gas_price, None);
    tx.set_gas_price(1_000_000_000);
    assert_eq!(tx.gas_limit, Some(21_000));
    assert_eq!(tx.gas_price, Some(1_000_000_000));
    tx.set_gas(5);
    assert_eq!(tx.gas_limit, Some(5));
    let tx = tx.legacy();
    assert_eq!(tx.envelope, Envelope::Legacy);
    assert_eq!(tx.payload, vec![1, 2, 3]);
    assert_eq!(tx.gas_limit, Some(5));
    assert_eq!(tx.gas_price, Some(1_000_000_000));
}

#[test]
fn plan_overrides_gas_for_an_encoding_that_succeeded() {
    let tx = plan_transaction(Ok(vec![0xde, 0xad])).unwrap();
    assert_eq!(tx.payload, vec![0xde, 0xad]);
    assert_eq!(tx.gas_limit, Some(20_000_000));
    assert_eq!(tx.gas_price, Some(42_000_000_000));
    assert_eq!(tx.envelope, Envelope::Legacy);
}

#[test]
fn plan_fails_with_the_words_of_an_encoding_that_was_refused() {
    assert_eq!(
        plan_transaction(Err("Invalid data".to_string())).unwrap_err(),
        HarnessError::EncodingFailure { detail: Some("Invalid data".to_string()) }
    );
}
