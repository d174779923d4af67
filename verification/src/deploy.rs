//! The deployment pipeline: from a compiled artifact and constructor
//! arguments to a confirmed contract, one state at a time.

use crate::encoding::{
    arguments_encodable, check_arguments_fit, check_arguments_small, constructor_inputs,
    constructor_types, deployment_payload, encode_deployment, AbiValue,
};
use crate::error::{ArtifactPart, HarnessError};
use crate::wallet::{Wallet, WalletView};
use ethers::abi::Abi;
use vstd::prelude::*;

verus! {

/// Gas limit of every deployment: ten times what a node would estimate by default.
pub const DEPLOY_GAS_LIMIT: u64 = 20_000_000;

/// Gas price of every deployment: twice a node's usual default.
pub const DEPLOY_GAS_PRICE: u128 = 42_000_000_000;

/// A compiled contract. Interface and bytecode are both needed to deploy
/// it; the deployed bytecode is carried and never read.
#[derive(Debug)]
pub struct CompiledArtifact {
    pub interface: Option<Abi>,
    pub bytecode: Option<Vec<u8>>,
    pub deployed_bytecode: Option<Vec<u8>>,
}

impl CompiledArtifact {
    /// The three parts, each as it was given.
    pub fn into_parts(self) -> (parts: (Option<Abi>, Option<Vec<u8>>, Option<Vec<u8>>))
        ensures
            parts.0 == self.interface,
            parts.1 == self.bytecode,
            parts.2 == self.deployed_bytecode,
    {
        (self.interface, self.bytecode, self.deployed_bytecode)
    }

    /// The part that is missing for a deployment, the interface first.
    pub open spec fn missing_part(self) -> Option<ArtifactPart> {
        if self.interface is None {
            Some(ArtifactPart::Interface)
        } else if self.bytecode is None {
            Some(ArtifactPart::Bytecode)
        } else {
            None
        }
    }
}

/// The envelope a transaction is submitted in.
#[derive(Clone, Copy, Debug, PartialEq, Eq, Structural)]
pub enum Envelope {
    /// With a single gas price.
    Legacy,
    /// With the fee-market pair of a maximum fee and a priority fee.
    FeeMarket,
}

/// What a deployment transaction is.
pub struct TransactionView {
    pub payload: Seq<u8>,
    pub gas_limit: Option<u64>,
    pub gas_price: Option<u128>,
    pub envelope: Envelope,
}

/// The transaction that deploys `payload`, as the pipeline hands it to the
/// signer: with both gas parameters overridden, in a legacy envelope.
pub open spec fn overridden_transaction(payload: Seq<u8>) -> TransactionView {
    TransactionView {
        payload,
        gas_limit: Some(DEPLOY_GAS_LIMIT),
        gas_price: Some(DEPLOY_GAS_PRICE),
        envelope: Envelope::Legacy,
    }
}

/// A transaction that creates a contract. A gas parameter that is not set
/// is left to the node.
#[derive(Debug)]
pub struct DeploymentTransaction {
    pub payload: Vec<u8>,
    pub gas_limit: Option<u64>,
    pub gas_price: Option<u128>,
    pub envelope: Envelope,
}

impl View for DeploymentTransaction {
    type V = TransactionView;

    open spec fn view(&self) -> TransactionView {
        TransactionView {
            payload: self.payload@,
            gas_limit: self.gas_limit,
            gas_price: self.gas_price,
            envelope: self.envelope,
        }
    }
}

impl DeploymentTransaction {
    /// The transaction as it is first built: the payload alone, in a
    /// fee-market envelope.
    pub fn new(payload: Vec<u8>) -> (tx: DeploymentTransaction)
        ensures
            tx@ == (TransactionView {
                payload: payload@,
                gas_limit: None,
                gas_price: None,
                envelope: Envelope::FeeMarket,
            }),
    {
        DeploymentTransaction { payload, gas_limit: None, gas_price: None, envelope: Envelope::FeeMarket }
    }

    /// Sets the gas limit, whatever it was.
    pub fn set_gas(&mut self, gas: u64)
        ensures
            final(self)@ == (TransactionView { gas_limit: Some(gas), ..old(self)@ }),
    {
        self.gas_limit = Some(gas);
    }

    /// Sets the gas price, whatever it was.
    pub fn set_gas_price(&mut self, gas_price: u128)
        ensures
            final(self)@ == (TransactionView { gas_price: Some(gas_price), ..old(self)@ }),
    {
        self.gas_price = Some(gas_price);
    }

    /// The same transaction in a legacy envelope.
    pub fn legacy(self) -> (tx: DeploymentTransaction)
        ensures
            tx@ == (TransactionView { envelope: Envelope::Legacy, ..self@ }),
    {
        DeploymentTransaction {
            payload: self.payload,
            gas_limit: self.gas_limit,
            gas_price: self.gas_price,
            envelope: Envelope::Legacy,
        }
    }
}

/// The transaction for an encoding that succeeded, with the gas override
/// applied; for one that was refused, an `EncodingFailure` with the text
/// of the refusal, unchanged.
pub fn plan_transaction(payload: Result<Vec<u8>, String>) -> (result: Result<
    DeploymentTransaction,
    HarnessError,
>)
    ensures
        payload matches Ok(p) ==> (result matches Ok(tx) && tx@ == overridden_transaction(p@)),
        payload matches Err(text) ==> (result matches Err(
            HarnessError::EncodingFailure { detail: Some(d) },
        ) && d == text),
{
    match payload {
        Ok(data) => {
            let mut tx = DeploymentTransaction::new(data);
            tx.set_gas(DEPLOY_GAS_LIMIT);
            tx.set_gas_price(DEPLOY_GAS_PRICE);
            Ok(tx.legacy())
        },
        Err(text) => Err(HarnessError::EncodingFailure { detail: Some(text) }),
    }
}

/// A contract that lives on the chain, as the node reported it mined.
#[derive(Debug)]
pub struct DeployedContract {
    /// Where the contract lives.
    pub address: [u8; 20],
    pub interface: Abi,
    /// The wallet that signed the deployment, bound to the harness's chain.
    pub signer: Wallet,
    /// The transaction that created the contract.
    pub transaction: DeploymentTransaction,
}

/// What the node reports of a deployment that was handed to it.
#[derive(Debug)]
#[allow(inconsistent_fields)]
pub enum DeploymentEvent {
    /// The node took the signed transaction.
    Accepted,
    /// The node rejected the signed transaction, in these words.
    Rejected { detail: String },
    /// The wait for the transaction ended with it mined. `created` is the
    /// address of the contract it created, where the node names one.
    Mined { created: Option<[u8; 20]> },
    /// The wait ended before the transaction was seen mined: it ran out,
    /// or it ended on an error of the node, in these words.
    TimedOut { detail: Option<String> },
}

/// What is to be done next for a deployment.
#[derive(Clone, Copy, Debug, PartialEq, Eq, Structural)]
pub enum DeploymentAction {
    /// Nothing outside: the next step is the pipeline's own.
    Proceed,
    /// Sign the transaction with the signer and submit it to the node, once.
    Submit,
    /// Wait until the node reports the transaction mined.
    AwaitConfirmation,
    /// Nothing: the deployment has ended.
    Stop,
}

/// A deployment, in the state it has reached.
#[derive(Debug)]
pub enum Deployment {
    /// Nothing has been looked at yet.
    Unbuilt { artifact: CompiledArtifact, args: Vec<AbiValue> },
    /// The artifact has both its parts.
    Built { interface: Abi, bytecode: Vec<u8>, args: Vec<AbiValue> },
    /// The transaction is built, its gas overridden, its signer bound to the chain.
    Signed { interface: Abi, signer: Wallet, transaction: DeploymentTransaction },
    /// The node has taken the transaction.
    Broadcast { interface: Abi, signer: Wallet, transaction: DeploymentTransaction },
    /// The transaction is mined. Nothing follows.
    Confirmed { contract: DeployedContract },
    /// A step failed. Nothing follows.
    Failed { error: HarnessError },
}

impl Deployment {
    /// Whether the deployment has ended, well or badly.
    pub open spec fn is_terminal(self) -> bool {
        self is Confirmed || self is Failed
    }

    /// What is to be done next in each state.
    pub open spec fn spec_action(self) -> DeploymentAction {
        match self {
            Deployment::Unbuilt { .. } => DeploymentAction::Proceed,
            Deployment::Built { .. } => DeploymentAction::Proceed,
            Deployment::Signed { .. } => DeploymentAction::Submit,
            Deployment::Broadcast { .. } => DeploymentAction::AwaitConfirmation,
            Deployment::Confirmed { .. } => DeploymentAction::Stop,
            Deployment::Failed { .. } => DeploymentAction::Stop,
        }
    }

    /// The state after the artifact has been taken apart.
    pub open spec fn spec_build(self) -> Deployment {
        match self {
            Deployment::Unbuilt { artifact, args } => match artifact.missing_part() {
                Some(missing) => Deployment::Failed {
                    error: HarnessError::InvalidArtifact { missing },
                },
                None => Deployment::Built {
                    interface: artifact.interface.unwrap(),
                    bytecode: artifact.bytecode.unwrap(),
                    args,
                },
            },
            other => other,
        }
    }

    /// Whether `next` is what signing with `signer` makes of `self`.
    /// Arguments with a tuple that is longer than its parameter, and
    /// arguments of more than `MAX_ENCODED_WORDS`, are refused before
    /// they are encoded; those that the encoding refuses fail with its words.
    pub open spec fn signed_as(self, signer: WalletView, next: Deployment) -> bool {
        match self {
            Deployment::Built { interface, bytecode, args } => {
                if !arguments_encodable(args@, constructor_types(interface)) {
                    next == (Deployment::Failed {
                        error: HarnessError::EncodingFailure { detail: None },
                    })
                } else {
                    match deployment_payload(interface, bytecode@, args@) {
                        Ok(payload) => next matches Deployment::Signed {
                            interface: i,
                            signer: s,
                            transaction,
                        } && i == interface && s@ == signer && transaction@
                            == overridden_transaction(payload) && bytecode@.is_prefix_of(
                            transaction@.payload,
                        ),
                        Err(text) => next matches Deployment::Failed {
                            error: HarnessError::EncodingFailure { detail: Some(d) },
                        } && d@ == text,
                    }
                }
            },
            other => next == other,
        }
    }

    /// The state after the node's report `event`. A rejection, and a wait
    /// that ended on an error, fail the deployment with the node's words,
    /// unchanged. A report that does not answer what the state is waiting
    /// for changes nothing.
    pub open spec fn spec_on_event(self, event: DeploymentEvent) -> Deployment {
        match (self, event) {
            (
                Deployment::Signed { interface, signer, transaction },
                DeploymentEvent::Accepted,
            ) => Deployment::Broadcast { interface, signer, transaction },
            (Deployment::Signed { .. }, DeploymentEvent::Rejected { detail }) => Deployment::Failed {
                error: HarnessError::BroadcastFailure { detail },
            },
            (
                Deployment::Broadcast { interface, signer, transaction },
                DeploymentEvent::Mined { created: Some(address) },
            ) => Deployment::Confirmed {
                contract: DeployedContract { address, interface, signer, transaction },
            },
            (Deployment::Broadcast { .. }, DeploymentEvent::Mined { created: None }) => Deployment::Failed {
                error: HarnessError::ConfirmationTimeout { detail: None },
            },
            (Deployment::Broadcast { .. }, DeploymentEvent::TimedOut { detail }) => Deployment::Failed {
                error: HarnessError::ConfirmationTimeout { detail },
            },
            (other, _) => other,
        }
    }

    /// A deployment of `artifact` with `args` for its constructor, before
    /// anything has been looked at.
    pub fn new(artifact: CompiledArtifact, args: Vec<AbiValue>) -> (deployment: Deployment)
        ensures
            deployment == (Deployment::Unbuilt { artifact, args }),
    {
        Deployment::Unbuilt { artifact, args }
    }

    /// What is to be done next.
    pub fn action(&self) -> (action: DeploymentAction)
        ensures
            action == self.spec_action(),
    {
        match self {
            Deployment::Unbuilt { .. } => DeploymentAction::Proceed,
            Deployment::Built { .. } => DeploymentAction::Proceed,
            Deployment::Signed { .. } => DeploymentAction::Submit,
            Deployment::Broadcast { .. } => DeploymentAction::AwaitConfirmation,
            Deployment::Confirmed { .. } => DeploymentAction::Stop,
            Deployment::Failed { .. } => DeploymentAction::Stop,
        }
    }

    /// Takes the artifact apart. An artifact without its interface, or
    /// else without its bytecode, fails the deployment with
    /// `InvalidArtifact`; any state but `Unbuilt` stays as it is.
    pub fn build(self) -> (next: Deployment)
        ensures
            next == self.spec_build(),
    {
        match self {
            Deployment::Unbuilt { artifact, args } => {
                let (interface, bytecode, _) = artifact.into_parts();
                match interface {
                    None => Deployment::Failed {
                        error: HarnessError::InvalidArtifact { missing: ArtifactPart::Interface },
                    },
                    Some(interface) => match bytecode {
                        None => Deployment::Failed {
                            error: HarnessError::InvalidArtifact { missing: ArtifactPart::Bytecode },
                        },
                        Some(bytecode) => Deployment::Built { interface, bytecode, args },
                    },
                }
            },
            other => other,
        }
    }

    /// Holds the arguments against the constructor's parameter types,
    /// encodes them behind the bytecode, overrides both gas parameters,
    /// and puts the transaction in a legacy envelope for `signer`.
    /// Arguments that do not fit the interface fail the deployment with
    /// `EncodingFailure`; any state but `Built` stays as it is.
    pub fn sign(self, signer: Wallet) -> (next: Deployment)
        ensures
            self.signed_as(signer@, next),
    {
        match self {
            Deployment::Built { interface, bytecode, args } => {
                let kinds = constructor_inputs(&interface);
                if !check_arguments_fit(&args, &kinds) || !check_arguments_small(&args) {
                    return Deployment::Failed {
                        error: HarnessError::EncodingFailure { detail: None },
                    };
                }
                let payload = encode_deployment(&interface, &bytecode, args);
                match plan_transaction(payload) {
                    Ok(transaction) => Deployment::Signed { interface, signer, transaction },
                    Err(error) => Deployment::Failed { error },
                }
            },
            other => other,
        }
    }

    /// Takes the node's report and moves on.
    pub fn on_event(self, event: DeploymentEvent) -> (next: Deployment)
        ensures
            next == self.spec_on_event(event),
    {
        match self {
            Deployment::Signed { interface, signer, transaction } => match event {
                DeploymentEvent::Accepted => Deployment::Broadcast { interface, signer, transaction },
                DeploymentEvent::Rejected { detail } => Deployment::Failed {
                    error: HarnessError::BroadcastFailure { detail },
                },
                _ => Deployment::Signed { interface, signer, transaction },
            },
            Deployment::Broadcast { interface, signer, transaction } => match event {
                DeploymentEvent::Mined { created: Some(address) } => Deployment::Confirmed {
                    contract: DeployedContract { address, interface, signer, transaction },
                },
                DeploymentEvent::Mined { created: None } => Deployment::Failed {
                    error: HarnessError::ConfirmationTimeout { detail: None },
                },
                DeploymentEvent::TimedOut { detail } => Deployment::Failed {
                    error: HarnessError::ConfirmationTimeout { detail },
                },
                _ => Deployment::Broadcast { interface, signer, transaction },
            },
            other => other,
        }
    }
}

/// The state that a run of reports leads to, taken one after another.
pub open spec fn spec_run(state: Deployment, events: Seq<DeploymentEvent>) -> Deployment
    decreases events.len(),
{
    if events.len() == 0 {
        state
    } else {
        spec_run(state.spec_on_event(events.first()), events.drop_first())
    }
}

/// A deployment that has ended stays as it is: no step of the pipeline
/// and no run of reports moves it, and nothing more is asked for.
pub proof fn ended_deployment_stays(state: Deployment, events: Seq<DeploymentEvent>)
    requires
        state.is_terminal(),
    ensures
        state.spec_build() == state,
        forall|signer: WalletView, next: Deployment| state.signed_as(signer, next) ==> next == state,
        spec_run(state, events) == state,
        state.spec_action() == DeploymentAction::Stop,
    decreases events.len(),
{
    if events.len() > 0 {
        ended_deployment_stays(state, events.drop_first());
    }
}

/// An artifact that lacks its interface or its bytecode fails with
/// `InvalidArtifact`, and no transaction comes of it: whatever the signer
/// and whatever is reported afterwards, the deployment never asks for a
/// submission.
pub proof fn invalid_artifact_never_submits(
    artifact: CompiledArtifact,
    args: Vec<AbiValue>,
    signer: WalletView,
    signed: Deployment,
    events: Seq<DeploymentEvent>,
)
    requires
        artifact.interface is None || artifact.bytecode is None,
        (Deployment::Unbuilt { artifact, args }).spec_build().signed_as(signer, signed),
    ensures
        (Deployment::Unbuilt { artifact, args }).spec_build() matches Deployment::Failed {
            error: HarnessError::InvalidArtifact { .. },
        },
        signed == (Deployment::Unbuilt { artifact, args }).spec_build(),
        spec_run(signed, events) == signed,
        spec_run(signed, events).spec_action() != DeploymentAction::Submit,
{
    ended_deployment_stays((Deployment::Unbuilt { artifact, args }).spec_build(), events);
}

/// Arguments that do not fit the interface fail with `EncodingFailure`
/// before anything is submitted, and nothing is submitted afterwards:
/// those with a tuple longer than its parameter, those that are too
/// large, and those that the encoding refuses.
pub proof fn encoding_failure_never_submits(
    built: Deployment,
    signer: WalletView,
    signed: Deployment,
    events: Seq<DeploymentEvent>,
)
    requires
        built matches Deployment::Built { interface, bytecode, args } && (!arguments_encodable(
            args@,
            constructor_types(interface),
        ) || deployment_payload(interface, bytecode@, args@) is Err),
        built.signed_as(signer, signed),
    ensures
        signed matches Deployment::Failed { error: HarnessError::EncodingFailure { .. } },
        spec_run(signed, events) == signed,
        spec_run(signed, events).spec_action() != DeploymentAction::Submit,
{
    ended_deployment_stays(signed, events);
}

/// A transaction that the node rejects fails the deployment with
/// `BroadcastFailure` and the node's words, unchanged; no contract comes
/// of it, and nothing is submitted again, whatever is reported afterwards.
pub proof fn rejection_keeps_the_nodes_words(
    signed: Deployment,
    detail: String,
    events: Seq<DeploymentEvent>,
)
    requires
        signed is Signed,
    ensures
        signed.spec_on_event(DeploymentEvent::Rejected { detail }) == (Deployment::Failed {
            error: HarnessError::BroadcastFailure { detail },
        }),
        spec_run(signed.spec_on_event(DeploymentEvent::Rejected { detail }), events)
            == signed.spec_on_event(DeploymentEvent::Rejected { detail }),
        spec_run(
            signed.spec_on_event(DeploymentEvent::Rejected { detail }),
            events,
        ).spec_action() == DeploymentAction::Stop,
{
    ended_deployment_stays(signed.spec_on_event(DeploymentEvent::Rejected { detail }), events);
}

/// Whether some byte of the address is not zero.
pub open spec fn is_nonzero(address: [u8; 20]) -> bool {
    exists|i: int| 0 <= i < 20 && address@[i] != 0
}

/// Every transaction that is signed carries a gas limit of 20,000,000 and
/// a gas price of 42,000,000,000 in a legacy envelope, and the contract
/// that is confirmed for it records that same transaction and, unchanged,
/// the address that the node reported: a non-zero one where the node
/// reported a non-zero one.
pub proof fn confirmed_contract_records_override(
    built: Deployment,
    signer: WalletView,
    signed: Deployment,
    address: [u8; 20],
)
    requires
        built is Built,
        built.signed_as(signer, signed),
        signed is Signed,
    ensures
        signed->Signed_transaction@.gas_limit == Some(20_000_000u64),
        signed->Signed_transaction@.gas_price == Some(42_000_000_000u128),
        signed->Signed_transaction@.envelope == Envelope::Legacy,
        signed.spec_action() == DeploymentAction::Submit,
        signed.spec_on_event(DeploymentEvent::Accepted).spec_action()
            == DeploymentAction::AwaitConfirmation,
        signed.spec_on_event(DeploymentEvent::Accepted).spec_on_event(
            DeploymentEvent::Mined { created: Some(address) },
        ) == (Deployment::Confirmed {
            contract: DeployedContract {
                address,
                interface: signed->Signed_interface,
                signer: signed->Signed_signer,
                transaction: signed->Signed_transaction,
            },
        }),
        signed.spec_on_event(DeploymentEvent::Accepted).spec_on_event(
            DeploymentEvent::Mined { created: Some(address) },
        )->Confirmed_contract.address == address,
        is_nonzero(address) ==> is_nonzero(
            signed.spec_on_event(DeploymentEvent::Accepted).spec_on_event(
                DeploymentEvent::Mined { created: Some(address) },
            )->Confirmed_contract.address,
        ),
{
}

/// A submission is asked for in the `Signed` state and in no other, and a
/// contract is confirmed only from `Broadcast`, by a report that the
/// transaction was mined and created one.
pub proof fn submission_and_confirmation_in_order(state: Deployment, event: DeploymentEvent)
    ensures
        state.spec_action() == DeploymentAction::Submit <==> state is Signed,
        state.spec_on_event(event) is Confirmed ==> state is Confirmed || (state is Broadcast
            && event matches DeploymentEvent::Mined { created: Some(_) }),
        state.spec_on_event(event) is Broadcast ==> state is Broadcast || (state is Signed
            && event is Accepted),
{
}

} // verus!
