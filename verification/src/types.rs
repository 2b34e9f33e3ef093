use vstd::prelude::*;

verus! {

/// A 20-byte account address, held as plain bytes.
#[derive(Debug)]
pub struct Address {
    pub bytes: Vec<u8>,
}

impl Address {
    /// A well-formed address holds exactly 20 bytes.
    pub open spec fn wf(&self) -> bool {
        self.bytes@.len() == 20
    }
}

impl View for Address {
    type V = Seq<u8>;

    open spec fn view(&self) -> Seq<u8> {
        self.bytes@
    }
}

/// The abstract value of a little-endian byte string: the base-256 fold of
/// its bytes, least significant first.
pub open spec fn le_bytes_value(s: Seq<u8>) -> nat
    decreases s.len(),
{
    if s.len() == 0 {
        0
    } else {
        s[0] as nat + 256 * le_bytes_value(s.skip(1))
    }
}

/// A 256-bit unsigned integer, held as its 32 little-endian bytes. The
/// transaction logic only carries such a value through to the simulator, so
/// plain bytes are all it needs.
#[derive(Debug)]
pub struct U256 {
    pub le_bytes: Vec<u8>,
}

impl U256 {
    /// A well-formed value holds exactly 32 bytes.
    pub open spec fn wf(&self) -> bool {
        self.le_bytes@.len() == 32
    }

    /// The zero value.
    pub fn zero() -> (r: U256)
        ensures
            r.wf(),
            r@ == 0,
    {
        let mut b: Vec<u8> = Vec::new();
        let mut i: usize = 0;
        while i < 32
            invariant
                i <= 32,
                b@ == Seq::new(i as nat, |j: int| 0u8),
            decreases 32 - i,
        {
            b.push(0u8);
            assert(b@ =~= Seq::new((i + 1) as nat, |j: int| 0u8));
            i = i + 1;
        }
        proof {
            lemma_le_bytes_value_zero(b@);
        }
        U256 { le_bytes: b }
    }
}

pub proof fn lemma_le_bytes_value_zero(s: Seq<u8>)
    requires
        forall|j: int| 0 <= j < s.len() ==> s[j] == 0u8,
    ensures
        le_bytes_value(s) == 0,
    decreases s.len(),
{
    if s.len() > 0 {
        assert(forall|j: int| 0 <= j < s.skip(1).len() ==> s.skip(1)[j] == s[j + 1]);
        lemma_le_bytes_value_zero(s.skip(1));
    }
}

impl View for U256 {
    type V = nat;

    open spec fn view(&self) -> nat {
        le_bytes_value(self.le_bytes@)
    }
}

/// Where a transaction is directed: a call to an existing account, or the
/// creation of a new one.
#[derive(Debug)]
pub enum TxKind {
    Call(Address),
    Create,
}

/// The ghost shape of a `TxKind`.
pub enum TxDest {
    Call(Seq<u8>),
    Create,
}

impl View for TxKind {
    type V = TxDest;

    open spec fn view(&self) -> TxDest {
        match self {
            TxKind::Call(a) => TxDest::Call(a@),
            TxKind::Create => TxDest::Create,
        }
    }
}

/// One transaction to simulate: who calls, where to, how much native value,
/// and the raw input bytes.
#[derive(Debug)]
pub struct SimulationTx {
    pub caller: Address,
    pub transact_to: TxKind,
    pub value: U256,
    pub data: Vec<u8>,
}

/// The ghost shape of a `SimulationTx`.
pub struct TxModel {
    pub caller: Seq<u8>,
    pub dest: TxDest,
    pub value: nat,
    pub data: Seq<u8>,
}

impl SimulationTx {
    pub open spec fn wf(&self) -> bool {
        &&& self.caller.wf()
        &&& self.value.wf()
        &&& match self.transact_to {
            TxKind::Call(a) => a.wf(),
            TxKind::Create => true,
        }
    }
}

impl View for SimulationTx {
    type V = TxModel;

    open spec fn view(&self) -> TxModel {
        TxModel { caller: self.caller@, dest: self.transact_to@, value: self.value@, data: self.data@ }
    }
}

/// The block a batch executes against.
#[derive(Debug)]
pub struct BlockEnv {
    pub number: u64,
    pub timestamp: u64,
}

/// An ordered set of transactions bound to one block, with the flag that says
/// whether each transaction observes the effects of the ones before it.
#[derive(Debug)]
pub struct SimulationBatch {
    pub block_env: BlockEnv,
    pub transactions: Vec<SimulationTx>,
    pub is_stateful: bool,
}

/// One entry of the inbound batch request, exactly as the caller sent it.
#[derive(Debug)]
pub struct TraceRequestSingle {
    pub from: String,
    pub to: Option<String>,
    pub value: Option<String>,
    pub data: Option<String>,
    pub operation: u8,
}

/// The ghost shape of a `TraceRequestSingle`.
pub struct ReqModel {
    pub from: Seq<char>,
    pub to: Option<Seq<char>>,
    pub value: Option<Seq<char>>,
    pub data: Option<Seq<char>>,
    pub operation: u8,
}

impl View for TraceRequestSingle {
    type V = ReqModel;

    open spec fn view(&self) -> ReqModel {
        ReqModel {
            from: self.from@,
            to: match self.to {
                Some(ref s) => Some(s@),
                None => None,
            },
            value: match self.value {
                Some(ref s) => Some(s@),
                None => None,
            },
            data: match self.data {
                Some(ref s) => Some(s@),
                None => None,
            },
            operation: self.operation,
        }
    }
}

/// A whole inbound batch request.
#[derive(Debug)]
pub struct BatchTraceRequest {
    pub chain_id: u64,
    pub is_stateful: bool,
    pub block_number: Option<u64>,
    pub requests: Vec<TraceRequestSingle>,
}

/// One configured network: its identifier, its endpoint, and its native
/// asset's symbol and decimal precision.
#[derive(Debug)]
pub struct ChainInfo {
    pub chain_id: u64,
    pub rpc_url: String,
    pub symbol: String,
    pub decimals: u8,
}

/// Symbol and decimal precision of one asset.
#[derive(Debug)]
pub struct TokenInfo {
    pub symbol: String,
    pub decimals: u8,
}

/// The outcome the simulator reports for one transaction, reduced to what the
/// dispatch logic reads: whether execution succeeded, and a rendering of the
/// execution payload.
#[derive(Debug)]
pub struct ExecutionResult {
    pub success: bool,
    pub output: String,
}

/// One asset movement observed during a simulated transaction.
#[derive(Debug)]
pub struct AssetTransfer {
    pub token: Address,
}

/// The trace the simulator reports for one transaction: the asset movements
/// it observed, and a rendering of the full trace payload.
#[derive(Debug)]
pub struct TxTraceOutput {
    pub asset_transfers: Vec<AssetTransfer>,
    pub trace: String,
}

/// What the simulator reports for one transaction: its execution and trace on
/// success, or an error text.
pub type TxOutcome = Result<(ExecutionResult, TxTraceOutput), String>;

/// One transaction's row of the response.
#[derive(Debug)]
pub struct SimulationResult {
    pub block_number: u64,
    pub error: Option<String>,
    pub execution_result: Option<ExecutionResult>,
    pub trace_result: Option<TxTraceOutput>,
}

impl SimulationResult {
    /// A fresh row for the given block, with nothing filled in yet.
    pub fn from_block_number(block_number: u64) -> (r: SimulationResult)
        ensures
            r.block_number == block_number,
            r.error is None,
            r.execution_result is None,
            r.trace_result is None,
    {
        SimulationResult { block_number, error: None, execution_result: None, trace_result: None }
    }
}

/// The response body of a successful batch: one row per transaction, and the
/// resolved token metadata keyed by asset address.
#[derive(Debug)]
pub struct BatchSimulationResult {
    pub results: Vec<SimulationResult>,
    pub token_infos: Option<Vec<(Address, TokenInfo)>>,
}

/// What the executor delivers for one job: the per-transaction outcomes, or a
/// batch-level error; and the token metadata when resolution succeeded.
#[derive(Debug)]
pub struct TraceResponse {
    pub result: Result<Vec<TxOutcome>, String>,
    pub token_infos: Option<Vec<(Address, TokenInfo)>>,
}

/// A queued job: which network to run against, and the batch to run. The
/// completion handle that pairs a job with its waiting caller lives outside
/// the verified core.
#[derive(Debug)]
pub struct TxRequest {
    pub chain_id: u64,
    pub txs: SimulationBatch,
}

} // verus!
