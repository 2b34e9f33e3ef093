use vstd::prelude::*;
use vstd::hash_map::HashMapWithView;
use vstd::string::StringExecFns;
use vstd::string::StringSliceAdditionalSpecFns;
use vstd::utf8::encode_utf8;
use crate::error::{dec_chars, u64_to_string, ErrModel, SimulateError};
use crate::parse::{
    addr_hex_ok, char_debug, char_debug_string, first_non_hex, hex_decode_raw, hex_ok,
    parse_address_raw, parse_u256_raw, spec_hex_decode, strip_hex_prefix, u256_dec_ok, dec_value,
    dec_digits, HexError,
};
use crate::types::{
    BatchSimulationResult, BatchTraceRequest, BlockEnv, ChainInfo, ReqModel, SimulationBatch,
    SimulationResult, SimulationTx, TraceRequestSingle, TraceResponse, TxDest, TxKind, TxModel,
    TxOutcome, U256,
};

verus! {

// ---------------------------------------------------------------------------
// Network registry.
// ---------------------------------------------------------------------------

/// The configured networks, keyed by identifier. Built once at startup and
/// only read afterwards.
pub struct NetworkRegistry {
    chains: HashMapWithView<u64, ChainInfo>,
}

impl View for NetworkRegistry {
    type V = Map<u64, ChainInfo>;

    closed spec fn view(&self) -> Map<u64, ChainInfo> {
        self.chains@
    }
}

impl NetworkRegistry {
    /// An empty registry.
    pub fn new() -> (r: NetworkRegistry)
        ensures
            r@ == Map::<u64, ChainInfo>::empty(),
    {
        NetworkRegistry { chains: HashMapWithView::new() }
    }

    /// Registers one network under its identifier, replacing an earlier
    /// entry with the same identifier.
    pub fn insert(&mut self, info: ChainInfo)
        ensures
            final(self)@ == old(self)@.insert(info.chain_id, info),
    {
        let id = info.chain_id;
        self.chains.insert(id, info);
    }

    /// Whether a network with this identifier is configured.
    pub fn contains(&self, chain_id: u64) -> (r: bool)
        ensures
            r == self@.contains_key(chain_id),
    {
        self.chains.contains_key(&chain_id)
    }

    /// The configured network with this identifier, or the error every
    /// request against an unknown network gets.
    pub fn lookup(&self, chain_id: u64) -> (r: Result<&ChainInfo, SimulateError>)
        ensures
            (r is Ok) == self@.contains_key(chain_id),
            r matches Ok(c) ==> *c == self@[chain_id],
            r matches Err(e) ==> e@ == ErrModel::ChainNotFound(chain_id),
    {
        match self.chains.get(&chain_id) {
            Some(c) => Ok(c),
            None => Err(SimulateError::ChainNotFound(chain_id)),
        }
    }
}

// ---------------------------------------------------------------------------
// Validation of one request entry.
// ---------------------------------------------------------------------------

/// The error a malformed address string earns, carrying that string.
pub open spec fn addr_err(s: Seq<char>) -> ErrModel {
    ErrModel::AddressParse("Invalid address format: "@ + s)
}

/// The error a malformed value string earns, carrying that string.
pub open spec fn u256_err(s: Seq<char>) -> ErrModel {
    ErrModel::Uint256Parse("Invalid uint256 radix of decimal format: "@ + s)
}

/// The text of a hexadecimal decoding failure: the odd length complaint, or
/// the first offending byte and where it stands.
pub open spec fn hex_err_text(raw: Seq<u8>) -> Seq<char> {
    if raw.len() % 2 != 0 {
        "odd number of digits"@
    } else {
        let t = strip_hex_prefix(raw);
        let i = first_non_hex(t);
        "invalid character "@ + char_debug(t[i] as char) + " at position "@ + dec_chars(i as nat)
    }
}

/// What the value field denotes: the given decimal string, or zero when the
/// field was left out.
pub open spec fn spec_value_of(v: Option<Seq<char>>) -> Result<nat, ErrModel> {
    match v {
        None => Ok(0),
        Some(s) => if u256_dec_ok(encode_utf8(s)) {
            Ok(dec_value(dec_digits(encode_utf8(s))))
        } else {
            Err(u256_err(s))
        },
    }
}

/// What the payload field denotes: the given hexadecimal bytes, or no bytes
/// when the field was left out.
pub open spec fn spec_data_of(d: Option<Seq<char>>) -> Result<Seq<u8>, ErrModel> {
    match d {
        None => Ok(Seq::empty()),
        Some(s) => if hex_ok(encode_utf8(s)) {
            Ok(spec_hex_decode(encode_utf8(s)))
        } else {
            Err(ErrModel::HexDecode(hex_err_text(encode_utf8(s))))
        },
    }
}

/// Where the entry's operation code sends the transaction: code 2 creates and
/// ignores any destination; code 0 calls and must carry a well-formed one;
/// every other code is rejected.
pub open spec fn spec_dest_of(r: ReqModel) -> Result<TxDest, ErrModel> {
    if r.operation == 2 {
        Ok(TxDest::Create)
    } else if r.operation == 0 {
        match r.to {
            Some(t) => if addr_hex_ok(encode_utf8(t)) {
                Ok(TxDest::Call(spec_hex_decode(encode_utf8(t))))
            } else {
                Err(addr_err(t))
            },
            None => Err(ErrModel::InvalidOperation("Operation call must have a to address"@)),
        }
    } else {
        Err(ErrModel::InvalidOperation("Invalid operation type"@))
    }
}

/// What one request entry denotes: a transaction, or the first of its faults
/// in the order they are looked for — caller address, then destination, then
/// value, then payload.
pub open spec fn spec_tx(r: ReqModel) -> Result<TxModel, ErrModel> {
    if !addr_hex_ok(encode_utf8(r.from)) {
        Err(addr_err(r.from))
    } else {
        match spec_dest_of(r) {
            Err(e) => Err(e),
            Ok(dest) => match spec_value_of(r.value) {
                Err(e) => Err(e),
                Ok(value) => match spec_data_of(r.data) {
                    Err(e) => Err(e),
                    Ok(data) => Ok(
                        TxModel { caller: spec_hex_decode(encode_utf8(r.from)), dest, value, data },
                    ),
                },
            },
        }
    }
}

/// Renders a hexadecimal decoding failure as text.
fn hex_error_message(e: &HexError) -> (r: String)
    ensures
        r@ == match e {
            HexError::OddLength => "odd number of digits"@,
            HexError::InvalidHexCharacter { c, index } => "invalid character "@ + char_debug(*c)
                + " at position "@ + dec_chars(*index as nat),
            HexError::InvalidStringLength => "invalid string length"@,
        },
{
    match e {
        HexError::OddLength => "odd number of digits".to_owned(),
        HexError::InvalidHexCharacter { c, index } => {
            let mut m = "invalid character ".to_owned();
            let cs = char_debug_string(*c);
            m.append(cs.as_str());
            m.append(" at position ");
            let d = u64_to_string(*index as u64);
            m.append(d.as_str());
            m
        },
        HexError::InvalidStringLength => "invalid string length".to_owned(),
    }
}

/// Turns one request entry into the transaction it denotes, or into the
/// entry's first fault.
pub fn build_tx(req: &TraceRequestSingle) -> (r: Result<SimulationTx, SimulateError>)
    ensures
        (r is Ok) == (spec_tx(req@) is Ok),
        r matches Ok(tx) ==> tx@ == spec_tx(req@)->Ok_0 && tx.wf(),
        r matches Err(e) ==> e@ == spec_tx(req@)->Err_0,
{
    let caller = match parse_address_raw(self_str(&req.from)) {
        Some(a) => a,
        None => {
            let mut m = "Invalid address format: ".to_owned();
            m.append(self_str(&req.from));
            return Err(SimulateError::AddressParseError(m));
        },
    };
    let transact_to = if req.operation == 2 {
        TxKind::Create
    } else if req.operation == 0 {
        match req.to {
            Some(ref t) => match parse_address_raw(self_str(t)) {
                Some(a) => TxKind::Call(a),
                None => {
                    let mut m = "Invalid address format: ".to_owned();
                    m.append(self_str(t));
                    return Err(SimulateError::AddressParseError(m));
                },
            },
            None => {
                return Err(
                    SimulateError::InvalidOperation("Operation call must have a to address".to_owned()),
                );
            },
        }
    } else {
        return Err(SimulateError::InvalidOperation("Invalid operation type".to_owned()));
    };
    let value = match req.value {
        Some(ref v) => match parse_u256_raw(self_str(v)) {
            Some(u) => u,
            None => {
                let mut m = "Invalid uint256 radix of decimal format: ".to_owned();
                m.append(self_str(v));
                return Err(SimulateError::Uint256ParseError(m));
            },
        },
        None => U256::zero(),
    };
    let data = match req.data {
        Some(ref d) => match hex_decode_raw(self_str(d)) {
            Ok(bytes) => bytes,
            Err(e) => {
                return Err(SimulateError::HexDecodeError(hex_error_message(&e)));
            },
        },
        None => Vec::new(),
    };
    Ok(SimulationTx { caller, transact_to, value, data })
}

/// A borrowed view of a string.
fn self_str(s: &String) -> (r: &str)
    ensures
        r@ == s@,
{
    s.as_str()
}

// ---------------------------------------------------------------------------
// Validation of a whole batch.
// ---------------------------------------------------------------------------

/// The ghost shapes of a sequence of request entries.
pub open spec fn reqs_view(s: Seq<TraceRequestSingle>) -> Seq<ReqModel> {
    s.map_values(|r: TraceRequestSingle| r@)
}

/// The ghost shapes of a sequence of transactions.
pub open spec fn txs_view(s: Seq<SimulationTx>) -> Seq<TxModel> {
    s.map_values(|t: SimulationTx| t@)
}

/// What a sequence of request entries denotes: the transactions, in order, or
/// the first entry's fault.
pub open spec fn spec_build(reqs: Seq<ReqModel>) -> Result<Seq<TxModel>, ErrModel>
    decreases reqs.len(),
{
    if reqs.len() == 0 {
        Ok(Seq::empty())
    } else {
        match spec_build(reqs.drop_last()) {
            Err(e) => Err(e),
            Ok(ts) => match spec_tx(reqs.last()) {
                Ok(t) => Ok(ts.push(t)),
                Err(e) => Err(e),
            },
        }
    }
}

/// One transaction per request entry, in the order given.
///
/// Law: a batch that validates yields exactly as many transactions as it has
/// entries, the transaction at each position denoted by the entry at the
/// same position.
pub proof fn lemma_build_preserves_length(reqs: Seq<ReqModel>)
    requires
        spec_build(reqs) is Ok,
    ensures
        (spec_build(reqs)->Ok_0).len() == reqs.len(),
        forall|i: int| 0 <= i < reqs.len() ==> (spec_build(reqs)->Ok_0)[i] == spec_tx(
            reqs[i],
        )->Ok_0,
    decreases reqs.len(),
{
    if reqs.len() > 0 {
        lemma_build_preserves_length(reqs.drop_last());
        assert(forall|i: int| 0 <= i < reqs.len() - 1 ==> reqs.drop_last()[i] == reqs[i]);
    }
}

/// A fault in a prefix is the fault of every extension.
proof fn lemma_spec_build_err_extends(reqs: Seq<ReqModel>, n: int)
    requires
        0 <= n <= reqs.len(),
        spec_build(reqs.take(n)) is Err,
    ensures
        spec_build(reqs) == spec_build(reqs.take(n)),
    decreases reqs.len(),
{
    if reqs.len() > n {
        assert(reqs.drop_last().take(n) =~= reqs.take(n));
        lemma_spec_build_err_extends(reqs.drop_last(), n);
    } else {
        assert(reqs.take(n) =~= reqs);
    }
}

/// Turns the request entries into the transactions to simulate, in the order
/// given, stopping at the first malformed entry.
#[verifier::rlimit(50)]
pub fn build_transactions(requests: &Vec<TraceRequestSingle>) -> (r: Result<
    Vec<SimulationTx>,
    SimulateError,
>)
    ensures
        (r is Ok) == (spec_build(reqs_view(requests@)) is Ok),
        r matches Ok(txs) ==> {
            &&& txs_view(txs@) == spec_build(reqs_view(requests@))->Ok_0
            &&& txs@.len() == requests@.len()
            &&& forall|i: int| 0 <= i < txs@.len() ==> #[trigger] txs@[i].wf()
        },
        r matches Err(e) ==> e@ == spec_build(reqs_view(requests@))->Err_0,
{
    let ghost rv = reqs_view(requests@);
    let mut txs: Vec<SimulationTx> = Vec::new();
    let mut i: usize = 0;
    proof {
        assert(rv.take(0) =~= Seq::<ReqModel>::empty());
        assert(txs_view(txs@) =~= Seq::<TxModel>::empty());
    }
    while i < requests.len()
        invariant
            0 <= i <= requests@.len(),
            rv == reqs_view(requests@),
            txs@.len() == i,
            spec_build(rv.take(i as int)) == Ok::<Seq<TxModel>, ErrModel>(txs_view(txs@)),
            forall|j: int| 0 <= j < txs@.len() ==> #[trigger] txs@[j].wf(),
        decreases requests@.len() - i,
    {
        let ghost prev = txs_view(txs@);
        match build_tx(&requests[i]) {
            Ok(t) => {
                txs.push(t);
                proof {
                    assert(rv.take(i + 1).drop_last() =~= rv.take(i as int));
                    assert(rv.take(i + 1).last() == rv[i as int]);
                    assert(rv[i as int] == requests@[i as int]@);
                    assert(txs_view(txs@) =~= prev.push(t@));
                }
            },
            Err(e) => {
                proof {
                    assert(rv.take(i + 1).drop_last() =~= rv.take(i as int));
                    assert(rv[i as int] == requests@[i as int]@);
                    assert(spec_build(rv.take(i + 1)) == Err::<Seq<TxModel>, ErrModel>(e@));
                    lemma_spec_build_err_extends(rv, i + 1);
                }
                return Err(e);
            },
        }
        i = i + 1;
    }
    proof {
        assert(rv.take(requests@.len() as int) =~= rv);
    }
    Ok(txs)
}

/// Looks the network up and validates every entry: what `simulate_batch`
/// decides before anything is queued. A request against an unknown network
/// is rejected here and never reaches the queue.
pub fn validate_request(reg: &NetworkRegistry, req: &BatchTraceRequest) -> (r: Result<
    Vec<SimulationTx>,
    SimulateError,
>)
    ensures
        !reg@.contains_key(req.chain_id) ==> (r matches Err(e) && e@ == ErrModel::ChainNotFound(
            req.chain_id,
        )),
        reg@.contains_key(req.chain_id) ==> {
            &&& (r is Ok) == (spec_build(reqs_view(req.requests@)) is Ok)
            &&& (r matches Ok(txs) ==> {
                &&& txs_view(txs@) == spec_build(reqs_view(req.requests@))->Ok_0
                &&& txs@.len() == req.requests@.len()
                &&& forall|i: int| 0 <= i < txs@.len() ==> #[trigger] txs@[i].wf()
            })
            &&& (r matches Err(e) ==> e@ == spec_build(reqs_view(req.requests@))->Err_0)
        },
{
    match reg.lookup(req.chain_id) {
        Err(e) => Err(e),
        Ok(_) => build_transactions(&req.requests),
    }
}

/// Binds validated transactions to their block: the batch the executor runs.
pub fn make_batch(block_env: BlockEnv, transactions: Vec<SimulationTx>, is_stateful: bool) -> (r:
    SimulationBatch)
    ensures
        r.block_env == block_env,
        r.transactions == transactions,
        r.is_stateful == is_stateful,
{
    SimulationBatch { block_env, transactions, is_stateful }
}

// ---------------------------------------------------------------------------
// Correlation: what the waiting caller sees.
// ---------------------------------------------------------------------------

/// How the wait for a job's result ended: with the executor's response,
/// with the time limit passed, or with the response channel gone.
pub enum AwaitOutcome {
    Received(TraceResponse),
    TimedOut,
    ChannelClosed,
}

/// Turns the outcome of the wait into what the caller is told: the response
/// when one arrived in time; otherwise a timeout error — a class of its own,
/// apart from the simulation-error class that covers a closed channel. The
/// executor is not told either way and finishes the job regardless.
pub fn correlate(o: AwaitOutcome) -> (r: Result<TraceResponse, SimulateError>)
    ensures
        o matches AwaitOutcome::Received(t) <==> r is Ok,
        o matches AwaitOutcome::Received(t) ==> (r matches Ok(got) && got == t),
        o is TimedOut ==> (r matches Err(e) && e@ == ErrModel::Timeout),
        o is ChannelClosed ==> (r matches Err(e) && e@ == ErrModel::Simulation(
            "Response channel closed"@,
        )),
{
    match o {
        AwaitOutcome::Received(t) => Ok(t),
        AwaitOutcome::TimedOut => Err(SimulateError::TimeoutError),
        AwaitOutcome::ChannelClosed => Err(
            SimulateError::SimulationError("Response channel closed".to_owned()),
        ),
    }
}

/// One response row matches one outcome: the block is the one the batch ran
/// against; a successful outcome fills the execution and trace fields and no
/// error; a failed one fills only the error text.
pub open spec fn row_matches(row: SimulationResult, o: TxOutcome, block_number: u64) -> bool {
    &&& row.block_number == block_number
    &&& match o {
        Ok((er, tr)) => {
            &&& row.error is None
            &&& row.execution_result == Some(er)
            &&& row.trace_result == Some(tr)
        },
        Err(m) => {
            &&& row.execution_result is None
            &&& row.trace_result is None
            &&& row.error matches Some(t) && t@ == "Trace Error:"@ + m@
        },
    }
}

/// Turns the executor's per-transaction outcomes into response rows: one row
/// per outcome, in the same order, each against the resolved block. A failed
/// transaction becomes a row with an error text, never a failed batch.
pub fn assemble_results(block_number: u64, outcomes: Vec<TxOutcome>) -> (r: Vec<SimulationResult>)
    ensures
        r@.len() == outcomes@.len(),
        forall|i: int| 0 <= i < outcomes@.len() ==> row_matches(#[trigger] r@[i], outcomes@[i], block_number),
{
    let mut rows: Vec<SimulationResult> = Vec::new();
    let mut outcomes = outcomes;
    let ghost all = outcomes@;
    while outcomes.len() > 0
        invariant
            rows@.len() <= all.len(),
            outcomes@ =~= all.skip(rows@.len() as int),
            forall|j: int| 0 <= j < rows@.len() ==> row_matches(
                #[trigger] rows@[j],
                all[j],
                block_number,
            ),
        decreases outcomes@.len(),
    {
        let ghost i = rows@.len() as int;
        proof {
            assert(all.skip(i).len() == all.len() - i);
        }
        let mut row = SimulationResult::from_block_number(block_number);
        let next = outcomes.remove(0);
        proof {
            assert(all.skip(i)[0] == all[i]);
            assert(outcomes@ =~= all.skip(i + 1));
        }
        match next {
            Ok((er, tr)) => {
                row.execution_result = Some(er);
                row.trace_result = Some(tr);
                row.error = None;
            },
            Err(m) => {
                let mut t = "Trace Error:".to_owned();
                t.append(m.as_str());
                row.error = Some(t);
            },
        }
        rows.push(row);
    }
    proof {
        assert(rows@.len() == all.len());
    }
    rows
}

/// What the caller finally receives for its request: the rows and the token
/// map when the executor reported outcomes, or the batch-level error it
/// reported instead.
pub fn render_response(block_number: u64, resp: TraceResponse) -> (r: Result<
    BatchSimulationResult,
    SimulateError,
>)
    ensures
        (r is Ok) == (resp.result is Ok),
        r matches Ok(b) ==> {
            &&& b.results@.len() == (resp.result->Ok_0)@.len()
            &&& forall|i: int| 0 <= i < b.results@.len() ==> row_matches(
                #[trigger] b.results@[i],
                (resp.result->Ok_0)@[i],
                block_number,
            )
            &&& b.token_infos == resp.token_infos
        },
        r matches Err(e) ==> e@ == ErrModel::Simulation((resp.result->Err_0)@),
{
    match resp.result {
        Ok(outcomes) => Ok(
            BatchSimulationResult {
                results: assemble_results(block_number, outcomes),
                token_infos: resp.token_infos,
            },
        ),
        Err(m) => Err(SimulateError::SimulationError(m)),
    }
}

/// The error a caller is told when its job could not be queued at all.
pub fn send_failure_error(detail: &str) -> (r: SimulateError)
    ensures
        r@ == ErrModel::Simulation("Failed to send trace request: "@ + detail@),
{
    let mut m = "Failed to send trace request: ".to_owned();
    m.append(detail);
    SimulateError::SimulationError(m)
}

} // verus!
