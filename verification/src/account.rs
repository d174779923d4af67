//! The harness itself: how it comes to be, one report of the outside
//! world at a time, and what it answers once it stands.

use crate::connection::{chain_id_of, http_endpoint_refusal, narrow_chain_id, ConnectedClient, TransportKind};
use crate::deploy::{CompiledArtifact, Deployment};
use crate::encoding::AbiValue;
use crate::error::HarnessError;
use crate::node::{
    accounts_of, all_admitted, same_report_same_accounts, HarnessProcess, LaunchRequest, NodeReport,
};
use crate::wallet::{derived_wallet, Wallet, WalletView};
use vstd::prelude::*;

verus! {

/// A running node, a client connected to it, and the chain identifier
/// that the node answered over that client.
#[derive(Debug)]
pub struct GanacheAccount {
    pub ganache: HarnessProcess,
    pub chain_id: u64,
    /// The node's request/response endpoint, whichever transport the client speaks.
    pub endpoint: String,
    pub provider: ConnectedClient,
}

impl GanacheAccount {
    /// Begins a harness over the request/response transport: the node is
    /// to be started with `seed_words` as its mnemonic and no further arguments.
    pub fn new_from_seed_with_http(seed_words: String) -> (start: Construction)
        ensures
            start == (Construction::Spawning {
                request: LaunchRequest { mnemonic: seed_words, extra_args: None },
                transport: TransportKind::RequestResponse,
            }),
    {
        Construction::Spawning {
            request: LaunchRequest { mnemonic: seed_words, extra_args: None },
            transport: TransportKind::RequestResponse,
        }
    }

    /// Begins a harness over the request/response transport: the node is
    /// to be started with `seed_words` as its mnemonic and `args` behind it.
    pub fn new_from_seed_with_http_args(seed_words: String, args: Vec<String>) -> (start:
        Construction)
        ensures
            start == (Construction::Spawning {
                request: LaunchRequest { mnemonic: seed_words, extra_args: Some(args) },
                transport: TransportKind::RequestResponse,
            }),
    {
        Construction::Spawning {
            request: LaunchRequest { mnemonic: seed_words, extra_args: Some(args) },
            transport: TransportKind::RequestResponse,
        }
    }

    /// Begins a harness over the streaming transport: the node is to be
    /// started with `seed_words` as its mnemonic and no further arguments.
    pub fn new_from_seed_with_ws(seed_words: String) -> (start: Construction)
        ensures
            start == (Construction::Spawning {
                request: LaunchRequest { mnemonic: seed_words, extra_args: None },
                transport: TransportKind::Streaming,
            }),
    {
        Construction::Spawning {
            request: LaunchRequest { mnemonic: seed_words, extra_args: None },
            transport: TransportKind::Streaming,
        }
    }

    /// What a lookup of the wallet at index `i` answers: the wallet of the
    /// node's account at that index, not yet bound to a chain, or
    /// `NotFound` at and past the number of accounts.
    pub open spec fn spec_get_wallet(self, i: int) -> Result<WalletView, HarnessError> {
        if 0 <= i < self.ganache.keys@.len() {
            Ok(derived_wallet(self.ganache.keys@[i]@))
        } else {
            Err(HarnessError::NotFound)
        }
    }

    /// The wallet the harness signs with: the first account's, bound to
    /// the harness's chain.
    pub open spec fn signer(self) -> WalletView
        recommends
            self.ganache.keys@.len() > 0,
    {
        WalletView { account: self.ganache.keys@[0]@, chain_id: self.chain_id }
    }

    /// Whether `started` is what a deployment of `contract` with `args`
    /// comes to before anything is handed to the node: a failure for an
    /// artifact that lacks a part, for a node without accounts, or for
    /// arguments that do not fit; else a signed transaction.
    pub open spec fn deploys_as(
        self,
        contract: CompiledArtifact,
        args: Vec<AbiValue>,
        started: Deployment,
    ) -> bool {
        match contract.missing_part() {
            Some(missing) => started == (Deployment::Failed {
                error: HarnessError::InvalidArtifact { missing },
            }),
            None => if self.ganache.keys@.len() == 0 {
                started == (Deployment::Failed { error: HarnessError::NotFound })
            } else {
                (Deployment::Built {
                    interface: contract.interface.unwrap(),
                    bytecode: contract.bytecode.unwrap(),
                    args,
                }).signed_as(self.signer(), started)
            },
        }
    }

    /// The wallet of the first account.
    pub fn get_default_wallet(&self) -> (result: Result<Wallet, HarnessError>)
        ensures
            wallet_result_is(result, self.spec_get_wallet(0)),
    {
        self.get_wallet(0)
    }

    /// The chain identifier that the node answered when the harness was made.
    pub fn get_chain_id(&self) -> (chain_id: u64)
        ensures
            chain_id == self.chain_id,
    {
        self.chain_id
    }

    /// The wallet of the account at index `i`, not yet bound to a chain.
    pub fn get_wallet(&self, i: usize) -> (result: Result<Wallet, HarnessError>)
        ensures
            wallet_result_is(result, self.spec_get_wallet(i as int)),
    {
        crate::wallet::derive(&self.ganache.keys, i)
    }

    /// Prepares the deployment of `contract` with `constructor_args` up to
    /// the signed transaction: the artifact is taken apart, the first
    /// account's wallet is bound to the harness's chain, the arguments are
    /// encoded behind the bytecode, and both gas parameters are
    /// overridden. Nothing is handed to the node here; what the node then
    /// reports is taken by `Deployment::on_event`.
    pub fn deploy_contract(&self, contract: CompiledArtifact, constructor_args: Vec<AbiValue>) -> (started:
        Deployment)
        ensures
            self.deploys_as(contract, constructor_args, started),
    {
        let built = Deployment::new(contract, constructor_args).build();
        match built {
            Deployment::Built { interface, bytecode, args } => match self.get_default_wallet() {
                Ok(wallet) => {
                    let signer = wallet.with_chain_id(self.chain_id);
                    (Deployment::Built { interface, bytecode, args }).sign(signer)
                },
                Err(error) => Deployment::Failed { error },
            },
            other => other,
        }
    }
}

/// Whether a looked-up wallet, or the failure to find one, is the one `expected`.
pub open spec fn wallet_result_is(
    result: Result<Wallet, HarnessError>,
    expected: Result<WalletView, HarnessError>,
) -> bool {
    match expected {
        Ok(view) => result matches Ok(wallet) && wallet@ == view,
        Err(error) => result matches Err(e) && e == error,
    }
}

/// What the outside world reports while a harness is being made.
#[derive(Debug)]
pub enum ConstructionEvent {
    /// The node is running and accepts connections.
    Spawned { report: NodeReport },
    /// The node could not be started, for the reason given.
    SpawnFailed { detail: String },
    /// The remote took the streaming handshake.
    Connected,
    /// The remote declined the streaming handshake, in these words.
    ConnectionRefused { detail: String },
    /// The node answered the chain-identifier query with this quantity,
    /// four words from the lowest up.
    ChainId { words: [u64; 4] },
    /// The chain-identifier query failed, in these words.
    ChainIdUnavailable { detail: String },
}

/// What is to be done next for a harness that is being made.
#[derive(Clone, Copy, Debug, PartialEq, Eq, Structural)]
pub enum ConstructionAction {
    /// Start the node with the request's mnemonic and arguments.
    Spawn,
    /// Open the streaming connection to the node's streaming endpoint.
    Connect,
    /// Ask the node, once, for its chain identifier.
    QueryChainId,
    /// Hand the harness to the caller.
    Deliver,
    /// Stop the node that was started, then report the failure.
    Release,
    /// Report the failure: nothing was started.
    GiveUp,
}

/// A harness that is being made, in the state it has reached.
#[derive(Debug)]
pub enum Construction {
    /// The node is to be started.
    Spawning { request: LaunchRequest, transport: TransportKind },
    /// The node runs; the streaming handshake is under way.
    Connecting { process: HarnessProcess },
    /// The client stands; the chain identifier is being asked for.
    Discovering { process: HarnessProcess, provider: ConnectedClient },
    /// The harness stands. Nothing follows.
    Ready { account: GanacheAccount },
    /// A step failed. `spawned` says whether a node was started and is to
    /// be stopped. Nothing follows.
    Failed { error: HarnessError, spawned: bool },
}

impl Construction {
    /// Whether the construction has ended, well or badly.
    pub open spec fn is_terminal(self) -> bool {
        self is Ready || self is Failed
    }

    /// What is to be done next in each state.
    pub open spec fn spec_action(self) -> ConstructionAction {
        match self {
            Construction::Spawning { .. } => ConstructionAction::Spawn,
            Construction::Connecting { .. } => ConstructionAction::Connect,
            Construction::Discovering { .. } => ConstructionAction::QueryChainId,
            Construction::Ready { .. } => ConstructionAction::Deliver,
            Construction::Failed { spawned, .. } => if spawned {
                ConstructionAction::Release
            } else {
                ConstructionAction::GiveUp
            },
        }
    }

    /// Whether `next` is the state that the report `event` leads to from
    /// `self`. A report that does not answer what the state is waiting for
    /// changes nothing.
    pub open spec fn steps_to(self, event: ConstructionEvent, next: Construction) -> bool {
        match (self, event) {
            (
                Construction::Spawning { request, transport },
                ConstructionEvent::Spawned { report },
            ) => {
                if !all_admitted(report.keys@) {
                    next == (Construction::Failed {
                        error: HarnessError::SpawnFailure { detail: None },
                        spawned: true,
                    })
                } else if transport == TransportKind::Streaming {
                    next matches Construction::Connecting { process } && process.describes(
                        request,
                        report,
                    )
                } else {
                    match http_endpoint_refusal(report.endpoint@) {
                        None => next matches Construction::Discovering { process, provider }
                            && process.describes(request, report)
                            && provider.is_request_response_for(report.endpoint@),
                        Some(text) => next matches Construction::Failed {
                            error: HarnessError::ConnectionFailure { detail },
                            spawned: true,
                        } && detail@ == text,
                    }
                }
            },
            (Construction::Spawning { .. }, ConstructionEvent::SpawnFailed { detail }) => next == (
            Construction::Failed {
                error: HarnessError::SpawnFailure { detail: Some(detail) },
                spawned: false,
            }),
            (Construction::Connecting { process }, ConstructionEvent::Connected) => {
                next matches Construction::Discovering { process: p, provider } && p == process
                    && provider.is_streaming_for(process.ws_endpoint@)
            },
            (Construction::Connecting { .. }, ConstructionEvent::ConnectionRefused { detail }) => next
                == (Construction::Failed {
                error: HarnessError::ConnectionFailure { detail },
                spawned: true,
            }),
            (
                Construction::Discovering { process, provider },
                ConstructionEvent::ChainId { words },
            ) => match chain_id_of(words) {
                Some(chain_id) => next == (Construction::Ready {
                    account: GanacheAccount {
                        ganache: process,
                        chain_id,
                        endpoint: process.endpoint,
                        provider,
                    },
                }),
                None => next == (Construction::Failed {
                    error: HarnessError::ChainIdDiscoveryFailure { detail: None },
                    spawned: true,
                }),
            },
            (
                Construction::Discovering { .. },
                ConstructionEvent::ChainIdUnavailable { detail },
            ) => next == (Construction::Failed {
                error: HarnessError::ChainIdDiscoveryFailure { detail: Some(detail) },
                spawned: true,
            }),
            (other, _) => next == other,
        }
    }

    /// What is to be done next.
    pub fn action(&self) -> (action: ConstructionAction)
        ensures
            action == self.spec_action(),
    {
        match self {
            Construction::Spawning { .. } => ConstructionAction::Spawn,
            Construction::Connecting { .. } => ConstructionAction::Connect,
            Construction::Discovering { .. } => ConstructionAction::QueryChainId,
            Construction::Ready { .. } => ConstructionAction::Deliver,
            Construction::Failed { spawned, .. } => if *spawned {
                ConstructionAction::Release
            } else {
                ConstructionAction::GiveUp
            },
        }
    }

    /// Takes a report of the outside world and moves on.
    pub fn on_event(self, event: ConstructionEvent) -> (next: Construction)
        ensures
            self.steps_to(event, next),
    {
        match self {
            Construction::Spawning { request, transport } => match event {
                ConstructionEvent::Spawned { report } => connect_spawned(request, transport, report),
                ConstructionEvent::SpawnFailed { detail } => Construction::Failed {
                    error: HarnessError::SpawnFailure { detail: Some(detail) },
                    spawned: false,
                },
                _ => Construction::Spawning { request, transport },
            },
            Construction::Connecting { process } => match event {
                ConstructionEvent::Connected => {
                    let provider = ConnectedClient::streaming(&process.ws_endpoint);
                    Construction::Discovering { process, provider }
                },
                ConstructionEvent::ConnectionRefused { detail } => Construction::Failed {
                    error: HarnessError::ConnectionFailure { detail },
                    spawned: true,
                },
                _ => Construction::Connecting { process },
            },
            Construction::Discovering { process, provider } => match event {
                ConstructionEvent::ChainId { words } => match narrow_chain_id(&words) {
                    Some(chain_id) => {
                        let endpoint = process.endpoint.clone();
                        Construction::Ready {
                            account: GanacheAccount { ganache: process, chain_id, endpoint, provider },
                        }
                    },
                    None => Construction::Failed {
                        error: HarnessError::ChainIdDiscoveryFailure { detail: None },
                        spawned: true,
                    },
                },
                ConstructionEvent::ChainIdUnavailable { detail } => Construction::Failed {
                    error: HarnessError::ChainIdDiscoveryFailure { detail: Some(detail) },
                    spawned: true,
                },
                _ => Construction::Discovering { process, provider },
            },
            other => other,
        }
    }
}

/// The state that follows the node's readiness: its accounts are checked,
/// and a request/response client is set up at once, while a streaming one
/// waits for its handshake.
fn connect_spawned(request: LaunchRequest, transport: TransportKind, report: NodeReport) -> (next:
    Construction)
    ensures
        (Construction::Spawning { request, transport }).steps_to(
            ConstructionEvent::Spawned { report },
            next,
        ),
{
    match HarnessProcess::from_report(request, report) {
        Err(error) => Construction::Failed { error, spawned: true },
        Ok(process) => match transport {
            TransportKind::Streaming => Construction::Connecting { process },
            TransportKind::RequestResponse => match ConnectedClient::request_response(
                &process.endpoint,
            ) {
                Ok(provider) => Construction::Discovering { process, provider },
                Err(error) => Construction::Failed { error, spawned: true },
            },
        },
    }
}

/// A lookup succeeds at every index below the number of accounts and is
/// `NotFound` at every other; and two lookups at one index of one harness
/// agree: both find the same key, address and chain identifier, or
/// neither finds any.
pub proof fn wallet_lookup_is_total_and_stable(
    account: GanacheAccount,
    i: usize,
    first: Result<Wallet, HarnessError>,
    second: Result<Wallet, HarnessError>,
)
    requires
        wallet_result_is(first, account.spec_get_wallet(i as int)),
        wallet_result_is(second, account.spec_get_wallet(i as int)),
    ensures
        i < account.ganache.keys@.len() <==> first is Ok,
        i >= account.ganache.keys@.len() <==> (first matches Err(e) && e == HarnessError::NotFound),
        first is Ok <==> second is Ok,
        first matches Ok(a) ==> (second matches Ok(b) && a@ == b@),
        first matches Err(e) ==> (second matches Err(f) && e == f),
{
}

/// The default wallet is the wallet at index 0.
pub proof fn default_wallet_is_first(account: GanacheAccount, found: Result<Wallet, HarnessError>)
    requires
        wallet_result_is(found, account.spec_get_wallet(0)),
    ensures
        account.ganache.keys@.len() > 0 ==> (found matches Ok(w) && w@ == derived_wallet(
            account.ganache.keys@[0]@,
        )),
        account.ganache.keys@.len() == 0 ==> (found matches Err(e) && e == HarnessError::NotFound),
{
}

/// A harness is delivered only for a chain identifier that the node
/// answered and that fits in 64 bits, and it holds that identifier: none
/// is ever delivered with an identifier that was not learned.
pub proof fn delivered_chain_id_is_reported(
    state: Construction,
    event: ConstructionEvent,
    next: Construction,
)
    requires
        state.steps_to(event, next),
        !(state is Ready),
        next is Ready,
    ensures
        state is Discovering,
        event matches ConstructionEvent::ChainId { words } && chain_id_of(words) == Some(
            next->Ready_account.chain_id,
        ),
        next->Ready_account.ganache == state->Discovering_process,
        next->Ready_account.provider == state->Discovering_provider,
        next->Ready_account.endpoint == state->Discovering_process.endpoint,
{
}

/// A construction that has ended stays as it is, whatever is reported.
pub proof fn ended_construction_stays(
    state: Construction,
    event: ConstructionEvent,
    next: Construction,
)
    requires
        state.is_terminal(),
        state.steps_to(event, next),
    ensures
        next == state,
{
}

/// A construction that fails after its node was started asks for the
/// node's release; one that fails because the node did not start has
/// nothing to release. Each failure names the step it arose in.
pub proof fn failed_construction_releases_node(
    state: Construction,
    event: ConstructionEvent,
    next: Construction,
)
    requires
        state.steps_to(event, next),
        !(state is Failed),
        next is Failed,
    ensures
        next->Failed_spawned <==> !(event is SpawnFailed),
        next->Failed_spawned ==> next.spec_action() == ConstructionAction::Release,
        !next->Failed_spawned ==> next.spec_action() == ConstructionAction::GiveUp,
        state is Spawning ==> next->Failed_error is SpawnFailure
            || next->Failed_error is ConnectionFailure,
        state is Connecting ==> next->Failed_error is ConnectionFailure,
        state is Discovering ==> next->Failed_error is ChainIdDiscoveryFailure,
{
}

/// A deployment through the harness fails with `InvalidArtifact` exactly
/// where the artifact lacks its interface or its bytecode, and then asks
/// for nothing; where it comes to a signed transaction, the signer is the
/// first account's wallet bound to the harness's chain.
pub proof fn harness_deployment_law(
    account: GanacheAccount,
    contract: CompiledArtifact,
    args: Vec<AbiValue>,
    started: Deployment,
)
    requires
        account.deploys_as(contract, args, started),
    ensures
        (contract.interface is None || contract.bytecode is None) <==> (started matches Deployment::Failed {
            error: HarnessError::InvalidArtifact { .. },
        }),
        started is Failed || started is Signed,
        started is Failed ==> started.spec_action() == crate::deploy::DeploymentAction::Stop,
        started matches Deployment::Signed { signer, transaction, .. } ==> {
            &&& account.ganache.keys@.len() > 0
            &&& signer@.chain_id == account.chain_id
            &&& signer@.account == account.ganache.keys@[0]@
            &&& transaction@.gas_limit == Some(crate::deploy::DEPLOY_GAS_LIMIT)
            &&& transaction@.gas_price == Some(crate::deploy::DEPLOY_GAS_PRICE)
        },
{
}

/// Whatever the outside world reports as the reason of a failure stands
/// in the failed construction, unchanged: the reason the node did not
/// start, the words with which the handshake was declined, and those with
/// which the chain-identifier query failed.
pub proof fn reported_failure_is_kept(state: Construction, detail: String, next: Construction)
    ensures
        (state is Spawning && state.steps_to(ConstructionEvent::SpawnFailed { detail }, next))
            ==> next == (Construction::Failed {
            error: HarnessError::SpawnFailure { detail: Some(detail) },
            spawned: false,
        }),
        (state is Connecting && state.steps_to(
            ConstructionEvent::ConnectionRefused { detail },
            next,
        )) ==> next == (Construction::Failed {
            error: HarnessError::ConnectionFailure { detail },
            spawned: true,
        }),
        (state is Discovering && state.steps_to(
            ConstructionEvent::ChainIdUnavailable { detail },
            next,
        )) ==> next == (Construction::Failed {
            error: HarnessError::ChainIdDiscoveryFailure { detail: Some(detail) },
            spawned: true,
        }),
{
}

/// Two harnesses whose nodes reported the same keys expose the same
/// accounts in the same order, and find the same wallet at every index,
/// whichever transport each was made over and whatever else its node was
/// launched with.
pub proof fn same_keys_same_wallets(
    one: GanacheAccount,
    other: GanacheAccount,
    raw: Seq<[u8; 32]>,
    i: int,
)
    requires
        accounts_of(raw, one.ganache.keys@),
        accounts_of(raw, other.ganache.keys@),
    ensures
        one.ganache.keys@.len() == other.ganache.keys@.len(),
        one.spec_get_wallet(i) == other.spec_get_wallet(i),
{
    same_report_same_accounts(one.ganache, other.ganache, raw);
}

} // verus!
