//! The spawned node as the harness knows it: what it was launched with and
//! what it reported once it was ready.

use crate::error::HarnessError;
use crate::wallet::{account_of, is_account_key, AccountKey};
use vstd::prelude::*;

verus! {

/// What a node is launched with. Its accounts are determined by the mnemonic.
#[derive(Debug)]
pub struct LaunchRequest {
    pub mnemonic: String,
    /// Further raw command-line arguments, if any.
    pub extra_args: Option<Vec<String>>,
}

/// What a node reports once it accepts connections.
#[derive(Debug)]
pub struct NodeReport {
    /// URL of the request/response endpoint.
    pub endpoint: String,
    /// URL of the streaming endpoint.
    pub ws_endpoint: String,
    /// The raw keys of the pre-funded accounts, in the node's order.
    pub keys: Vec<[u8; 32]>,
}

/// A node that is running. The process itself belongs to whoever spawned
/// it and is stopped when the harness is discarded.
#[derive(Debug)]
pub struct HarnessProcess {
    pub endpoint: String,
    pub ws_endpoint: String,
    pub mnemonic: String,
    pub extra_args: Option<Vec<String>>,
    /// The keys of the pre-funded accounts, in the node's order.
    pub keys: Vec<AccountKey>,
}

/// Whether every one of the raw keys is a signing key.
pub open spec fn all_admitted(raw: Seq<[u8; 32]>) -> bool {
    forall|i: int| 0 <= i < raw.len() ==> is_account_key(#[trigger] raw[i]@)
}

/// Whether `keys` are the accounts of the raw keys, one for one and in order.
pub open spec fn accounts_of(raw: Seq<[u8; 32]>, keys: Seq<AccountKey>) -> bool {
    &&& keys.len() == raw.len()
    &&& forall|i: int| 0 <= i < raw.len() ==> (#[trigger] keys[i])@ == account_of(raw[i]@)
}

/// Checks the raw keys one by one and keeps them in their order; `None`
/// exactly where one of them is no signing key.
pub fn admit_keys(raw: &Vec<[u8; 32]>) -> (keys: Option<Vec<AccountKey>>)
    ensures
        keys is Some <==> all_admitted(raw@),
        keys matches Some(ks) ==> accounts_of(raw@, ks@),
{
    let mut keys: Vec<AccountKey> = Vec::new();
    let mut i: usize = 0;
    while i < raw.len()
        invariant
            i <= raw@.len(),
            all_admitted(raw@.subrange(0, i as int)),
            accounts_of(raw@.subrange(0, i as int), keys@),
        decreases raw@.len() - i,
    {
        match AccountKey::from_bytes(raw[i]) {
            Some(key) => {
                keys.push(key);
            },
            None => {
                assert(!is_account_key(raw@[i as int]@));
                return None;
            },
        }
        i += 1;
    }
    assert(raw@.subrange(0, i as int) =~= raw@);
    Some(keys)
}

impl HarnessProcess {
    /// Whether `self` is the node that `request` launched and `report` describes.
    pub open spec fn describes(self, request: LaunchRequest, report: NodeReport) -> bool {
        &&& self.endpoint == report.endpoint
        &&& self.ws_endpoint == report.ws_endpoint
        &&& self.mnemonic == request.mnemonic
        &&& self.extra_args == request.extra_args
        &&& accounts_of(report.keys@, self.keys@)
    }

    /// The running node that `request` launched, from what it reported.
    /// A report with an account that is no signing key is a `SpawnFailure`.
    pub fn from_report(request: LaunchRequest, report: NodeReport) -> (result: Result<
        HarnessProcess,
        HarnessError,
    >)
        ensures
            all_admitted(report.keys@) ==> (result matches Ok(process) && process.describes(
                request,
                report,
            )),
            !all_admitted(report.keys@) ==> (result matches Err(e) && e
                == (HarnessError::SpawnFailure { detail: None })),
    {
        match admit_keys(&report.keys) {
            Some(keys) => Ok(
                HarnessProcess {
                    endpoint: report.endpoint,
                    ws_endpoint: report.ws_endpoint,
                    mnemonic: request.mnemonic,
                    extra_args: request.extra_args,
                    keys,
                },
            ),
            None => Err(HarnessError::SpawnFailure { detail: None }),
        }
    }
}

/// Two nodes that reported the same keys expose the same accounts, in the
/// same order, whatever else they were launched with.
pub proof fn same_report_same_accounts(
    one: HarnessProcess,
    other: HarnessProcess,
    raw: Seq<[u8; 32]>,
)
    requires
        accounts_of(raw, one.keys@),
        accounts_of(raw, other.keys@),
    ensures
        one.keys@.len() == other.keys@.len(),
        forall|i: int| 0 <= i < one.keys@.len() ==> one.keys@[i]@ == other.keys@[i]@,
{
    assert forall|i: int| 0 <= i < one.keys@.len() implies one.keys@[i]@ == other.keys@[i]@ by {
        assert(one.keys@[i]@ == account_of(raw[i]@));
        assert(other.keys@[i]@ == account_of(raw[i]@));
    }
}

} // verus!
