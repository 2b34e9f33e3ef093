use vstd::prelude::*;
use vstd::string::StringExecFns;
use crate::error::dec_chars;
use crate::types::{Address, AssetTransfer, ChainInfo, TokenInfo, TraceResponse, TxOutcome};

verus! {

// ---------------------------------------------------------------------------
// The native asset's sentinel address.
// ---------------------------------------------------------------------------

/// The sentinel address that stands for the network's native asset in
/// transfer records and in the token map.
pub open spec fn native_token_addr() -> Seq<u8> {
    Seq::new(20, |i: int| 0xeeu8)
}

/// The sentinel address as a value.
pub fn native_token_address() -> (r: Address)
    ensures
        r@ == native_token_addr(),
        r.wf(),
{
    let mut b: Vec<u8> = Vec::new();
    let mut i: usize = 0;
    while i < 20
        invariant
            i <= 20,
            b@ == Seq::new(i as nat, |j: int| 0xeeu8),
        decreases 20 - i,
    {
        b.push(0xeeu8);
        assert(b@ =~= Seq::new((i + 1) as nat, |j: int| 0xeeu8));
        i = i + 1;
    }
    proof {
        assert(b@ =~= native_token_addr());
    }
    Address { bytes: b }
}

// ---------------------------------------------------------------------------
// Collecting the distinct non-native assets a batch touched.
// ---------------------------------------------------------------------------

/// The byte views of a sequence of addresses.
pub open spec fn addrs_view(s: Seq<Address>) -> Seq<Seq<u8>> {
    s.map_values(|a: Address| a@)
}

/// The asset addresses one outcome contributes: its transfers' tokens when
/// the transaction executed successfully, nothing otherwise.
pub open spec fn outcome_tokens(o: TxOutcome) -> Seq<Seq<u8>> {
    match o {
        Ok((er, tr)) => if er.success {
            tr.asset_transfers@.map_values(|t: AssetTransfer| t.token@)
        } else {
            Seq::empty()
        },
        Err(_) => Seq::empty(),
    }
}

/// Every asset address the batch's outcomes mention, in order.
pub open spec fn all_tokens(os: Seq<TxOutcome>) -> Seq<Seq<u8>>
    decreases os.len(),
{
    if os.len() == 0 {
        Seq::empty()
    } else {
        all_tokens(os.drop_last()) + outcome_tokens(os.last())
    }
}

/// The distinct non-native addresses of a sequence, each at its first
/// appearance, native sentinels dropped.
pub open spec fn distinct_nonnative(ts: Seq<Seq<u8>>) -> Seq<Seq<u8>>
    decreases ts.len(),
{
    if ts.len() == 0 {
        Seq::empty()
    } else {
        let rest = distinct_nonnative(ts.drop_last());
        if ts.last() == native_token_addr() || rest.contains(ts.last()) {
            rest
        } else {
            rest.push(ts.last())
        }
    }
}

/// Whether two addresses hold the same bytes.
pub fn addr_eq(a: &Address, b: &Address) -> (r: bool)
    ensures
        r == (a@ == b@),
{
    if a.bytes.len() != b.bytes.len() {
        return false;
    }
    let mut i: usize = 0;
    while i < a.bytes.len()
        invariant
            i <= a.bytes@.len(),
            a.bytes@.len() == b.bytes@.len(),
            forall|j: int| 0 <= j < i ==> a.bytes@[j] == b.bytes@[j],
        decreases a.bytes@.len() - i,
    {
        if a.bytes[i] != b.bytes[i] {
            return false;
        }
        i = i + 1;
    }
    proof {
        assert(a@ =~= b@);
    }
    true
}

/// Whether this address already stands in the list.
fn contains_addr(v: &Vec<Address>, a: &Address) -> (r: bool)
    ensures
        r == addrs_view(v@).contains(a@),
{
    let mut i: usize = 0;
    while i < v.len()
        invariant
            i <= v@.len(),
            forall|j: int| 0 <= j < i ==> addrs_view(v@)[j] != a@,
        decreases v@.len() - i,
    {
        if addr_eq(&v[i], a) {
            assert(addrs_view(v@)[i as int] == a@);
            return true;
        }
        i = i + 1;
    }
    false
}

/// A copy of an address.
pub fn clone_addr(a: &Address) -> (r: Address)
    ensures
        r@ == a@,
        a.wf() ==> r.wf(),
{
    let b = a.bytes.clone();
    proof {
        assert(b@ =~= a.bytes@);
    }
    Address { bytes: b }
}

/// Scans the outcomes of a batch for the non-native assets their transfers
/// touched: each distinct address once, in order of first appearance, from
/// successful transactions only.
pub fn collect_token_addresses(outcomes: &Vec<TxOutcome>) -> (r: Vec<Address>)
    ensures
        addrs_view(r@) == distinct_nonnative(all_tokens(outcomes@)),
{
    let mut acc: Vec<Address> = Vec::new();
    let mut i: usize = 0;
    proof {
        assert(outcomes@.take(0) =~= Seq::<TxOutcome>::empty());
        assert(addrs_view(acc@) =~= Seq::<Seq<u8>>::empty());
    }
    let native = native_token_address();
    while i < outcomes.len()
        invariant
            i <= outcomes@.len(),
            native@ == native_token_addr(),
            addrs_view(acc@) == distinct_nonnative(all_tokens(outcomes@.take(i as int))),
        decreases outcomes@.len() - i,
    {
        let ghost done = all_tokens(outcomes@.take(i as int));
        if let Ok((er, tr)) = &outcomes[i] {
            if er.success {
                let ghost ts = tr.asset_transfers@.map_values(|t: AssetTransfer| t.token@);
                let mut j: usize = 0;
                proof {
                    assert(ts.take(0) =~= Seq::<Seq<u8>>::empty());
                    assert(done + ts.take(0) =~= done);
                }
                while j < tr.asset_transfers.len()
                    invariant
                        j <= tr.asset_transfers@.len(),
                        native@ == native_token_addr(),
                        ts == tr.asset_transfers@.map_values(|t: AssetTransfer| t.token@),
                        addrs_view(acc@) == distinct_nonnative(done + ts.take(j as int)),
                    decreases tr.asset_transfers@.len() - j,
                {
                    let token = &tr.asset_transfers[j].token;
                    let ghost before = done + ts.take(j as int);
                    proof {
                        assert(done + ts.take(j + 1) =~= before.push(ts[j as int]));
                        assert((before.push(ts[j as int])).drop_last() =~= before);
                        assert(ts[j as int] == token@);
                    }
                    if !addr_eq(token, &native) && !contains_addr(&acc, token) {
                        let t = clone_addr(token);
                        let ghost prev = addrs_view(acc@);
                        acc.push(t);
                        proof {
                            assert(addrs_view(acc@) =~= prev.push(token@));
                        }
                    }
                    j = j + 1;
                }
                proof {
                    assert(ts.take(tr.asset_transfers@.len() as int) =~= ts);
                    assert(done + ts =~= all_tokens(outcomes@.take(i + 1))) by {
                        assert(outcomes@.take(i + 1).drop_last() =~= outcomes@.take(i as int));
                        assert(outcomes@.take(i + 1).last() == outcomes@[i as int]);
                    }
                }
            } else {
                proof {
                    assert(done + outcome_tokens(outcomes@[i as int]) =~= done);
                    assert(all_tokens(outcomes@.take(i + 1)) =~= done) by {
                        assert(outcomes@.take(i + 1).drop_last() =~= outcomes@.take(i as int));
                    }
                }
            }
        } else {
            proof {
                assert(done + outcome_tokens(outcomes@[i as int]) =~= done);
                assert(all_tokens(outcomes@.take(i + 1)) =~= done) by {
                    assert(outcomes@.take(i + 1).drop_last() =~= outcomes@.take(i as int));
                }
            }
        }
        i = i + 1;
    }
    proof {
        assert(outcomes@.take(outcomes@.len() as int) =~= outcomes@);
    }
    acc
}

/// No asset but the native one: nothing is collected.
///
/// Law: a batch whose outcomes reference only the native asset yields an
/// empty set of addresses to resolve, so its token map holds exactly the
/// native entry once `finish_batch` adds it.
pub proof fn lemma_only_native_collects_nothing(ts: Seq<Seq<u8>>)
    requires
        forall|i: int| 0 <= i < ts.len() ==> ts[i] == native_token_addr(),
    ensures
        distinct_nonnative(ts) == Seq::<Seq<u8>>::empty(),
    decreases ts.len(),
{
    if ts.len() > 0 {
        lemma_only_native_collects_nothing(ts.drop_last());
    }
}

/// Everything collected is non-native and was referenced.
///
/// Law: an address leaves `collect_token_addresses` exactly when some
/// successful outcome's transfers mention it and it is not the sentinel.
pub proof fn lemma_collected_iff_referenced(ts: Seq<Seq<u8>>, t: Seq<u8>)
    ensures
        distinct_nonnative(ts).contains(t) <==> (ts.contains(t) && t != native_token_addr()),
    decreases ts.len(),
{
    if ts.len() > 0 {
        lemma_collected_iff_referenced(ts.drop_last(), t);
        assert(ts.contains(t) <==> (ts.drop_last().contains(t) || ts.last() == t)) by {
            if ts.contains(t) {
                let k = choose|k: int| 0 <= k < ts.len() && ts[k] == t;
                if k < ts.len() - 1 {
                    assert(ts.drop_last()[k] == t);
                }
            }
            if ts.drop_last().contains(t) {
                let k = choose|k: int| 0 <= k < ts.drop_last().len() && ts.drop_last()[k] == t;
                assert(ts[k] == t);
            }
        }
        let rest = distinct_nonnative(ts.drop_last());
        if !(ts.last() == native_token_addr() || rest.contains(ts.last())) {
            assert(forall|x: Seq<u8>| rest.push(ts.last()).contains(x) <==> (rest.contains(x)
                || x == ts.last())) by {
                assert forall|x: Seq<u8>| #[trigger] rest.push(ts.last()).contains(x) implies (
                rest.contains(x) || x == ts.last()) by {
                    let k = choose|k: int|
                        0 <= k < rest.push(ts.last()).len() && rest.push(ts.last())[k] == x;
                    if k < rest.len() {
                        assert(rest[k] == x);
                    }
                };
                assert forall|x: Seq<u8>| rest.contains(x) || x == ts.last() implies #[trigger] rest
                    .push(ts.last()).contains(x) by {
                    if rest.contains(x) {
                        let k = choose|k: int| 0 <= k < rest.len() && rest[k] == x;
                        assert(rest.push(ts.last())[k] == x);
                    } else {
                        assert(rest.push(ts.last()).last() == x);
                    }
                };
            }
        }
    }
}

/// The collected set is a set, and the sentinel is never in it.
///
/// Law: the addresses handed to the token resolver hold no duplicates and
/// never the native sentinel, so the token map `finish_batch` builds from
/// them — native entry appended last — is keyed by distinct addresses.
pub proof fn lemma_collected_is_distinct(ts: Seq<Seq<u8>>)
    ensures
        forall|i: int, j: int| 0 <= i < j < distinct_nonnative(ts).len() ==> distinct_nonnative(
            ts,
        )[i] != distinct_nonnative(ts)[j],
        !distinct_nonnative(ts).contains(native_token_addr()),
    decreases ts.len(),
{
    if ts.len() > 0 {
        lemma_collected_is_distinct(ts.drop_last());
        let rest = distinct_nonnative(ts.drop_last());
        if !(ts.last() == native_token_addr() || rest.contains(ts.last())) {
            let whole = rest.push(ts.last());
            assert(forall|i: int| 0 <= i < rest.len() ==> whole[i] == rest[i]);
            assert(forall|i: int| 0 <= i < rest.len() ==> rest[i] != ts.last()) by {
                assert forall|i: int| 0 <= i < rest.len() implies rest[i] != ts.last() by {
                    if rest[i] == ts.last() {
                        assert(rest.contains(ts.last()));
                    }
                };
            }
            assert(!whole.contains(native_token_addr())) by {
                if whole.contains(native_token_addr()) {
                    let k = choose|k: int|
                        0 <= k < whole.len() && whole[k] == native_token_addr();
                    if k < rest.len() {
                        assert(rest.contains(native_token_addr()));
                    }
                }
            }
        }
    }
}

// ---------------------------------------------------------------------------
// Finishing one job.
// ---------------------------------------------------------------------------

/// A copy of one asset's metadata.
pub fn clone_token_info(t: &TokenInfo) -> (r: TokenInfo)
    ensures
        r == *t,
{
    TokenInfo { symbol: t.symbol.clone(), decimals: t.decimals }
}

/// Assembles the executor's response for one job once the simulator has
/// spoken: the per-transaction outcomes unchanged, and the token map built
/// from the resolved metadata plus the native entry — unless resolution
/// failed, in which case the whole batch fails and no token map is handed
/// back, however the individual transactions fared.
pub fn finish_batch(
    native: &ChainInfo,
    outcomes: Vec<TxOutcome>,
    tokens: Vec<Address>,
    resolved: Option<Result<Vec<TokenInfo>, String>>,
) -> (r: TraceResponse)
    requires
        (resolved is Some) == (tokens@.len() > 0),
        resolved matches Some(Ok(infos)) ==> infos@.len() == tokens@.len(),
    ensures
        resolved matches Some(Err(m)) ==> {
            &&& r.result matches Err(t) && t@ == "Failed to get token infos: "@ + m@
            &&& r.token_infos is None
        },
        !(resolved matches Some(Err(m))) ==> {
            &&& r.result matches Ok(os) && os == outcomes
            &&& r.token_infos matches Some(entries) && {
                &&& entries@.len() == tokens@.len() + 1
                &&& forall|i: int| 0 <= i < tokens@.len() ==> (#[trigger] entries@[i]).0@
                    == tokens@[i]@ && entries@[i].1 == (resolved->Some_0)->Ok_0@[i]
                &&& entries@.last().0@ == native_token_addr()
                &&& entries@.last().1.symbol@ == native.symbol@
                &&& entries@.last().1.decimals == native.decimals
            }
        },
{
    match resolved {
        Some(Err(m)) => {
            let mut t = "Failed to get token infos: ".to_owned();
            t.append(m.as_str());
            TraceResponse { result: Err(t), token_infos: None }
        },
        Some(Ok(infos)) => {
            let mut entries: Vec<(Address, TokenInfo)> = Vec::new();
            let mut i: usize = 0;
            while i < tokens.len()
                invariant
                    i <= tokens@.len(),
                    infos@.len() == tokens@.len(),
                    entries@.len() == i,
                    forall|j: int| 0 <= j < i ==> (#[trigger] entries@[j]).0@ == tokens@[j]@
                        && entries@[j].1 == infos@[j],
                decreases tokens@.len() - i,
            {
                let a = clone_addr(&tokens[i]);
                let info = clone_token_info(&infos[i]);
                entries.push((a, info));
                i = i + 1;
            }
            let native_entry = TokenInfo { symbol: native.symbol.clone(), decimals: native.decimals };
            entries.push((native_token_address(), native_entry));
            TraceResponse { result: Ok(outcomes), token_infos: Some(entries) }
        },
        None => {
            let mut entries: Vec<(Address, TokenInfo)> = Vec::new();
            let native_entry = TokenInfo { symbol: native.symbol.clone(), decimals: native.decimals };
            entries.push((native_token_address(), native_entry));
            TraceResponse { result: Ok(outcomes), token_infos: Some(entries) }
        },
    }
}

/// The response for a job whose network has no simulator: an error, no
/// execution attempted. The frontend's validation makes this unreachable,
/// but the executor still answers rather than fail.
pub fn missing_simulator_response(chain_id: u64) -> (r: TraceResponse)
    ensures
        r.result matches Err(t) && t@ == "EVM instance not found for chain "@ + dec_chars(
            chain_id as nat,
        ),
        r.token_infos is None,
{
    let mut t = "EVM instance not found for chain ".to_owned();
    let d = crate::error::u64_to_string(chain_id);
    t.append(d.as_str());
    TraceResponse { result: Err(t), token_infos: None }
}

// ---------------------------------------------------------------------------
// The executor's scheduling model.
// ---------------------------------------------------------------------------

/// The state the simulators are left in after a sequence of jobs, each job
/// stepped in full before the next: `step` maps a state and a job to the
/// state and result that processing the job alone produces.
pub open spec fn state_after<S, J, R>(step: spec_fn(S, J) -> (S, R), s0: S, jobs: Seq<J>) -> S
    decreases jobs.len(),
{
    if jobs.len() == 0 {
        s0
    } else {
        step(state_after(step, s0, jobs.drop_last()), jobs.last()).0
    }
}

/// The results a sequence of jobs produces when processed strictly one after
/// another, in the order given.
pub open spec fn run_jobs<S, J, R>(step: spec_fn(S, J) -> (S, R), s0: S, jobs: Seq<J>) -> Seq<R>
    decreases jobs.len(),
{
    if jobs.len() == 0 {
        Seq::empty()
    } else {
        run_jobs(step, s0, jobs.drop_last()).push(
            step(state_after(step, s0, jobs.drop_last()), jobs.last()).1,
        )
    }
}

/// One result per job, in submission order.
pub proof fn lemma_run_jobs_len<S, J, R>(step: spec_fn(S, J) -> (S, R), s0: S, jobs: Seq<J>)
    ensures
        run_jobs(step, s0, jobs).len() == jobs.len(),
    decreases jobs.len(),
{
    if jobs.len() > 0 {
        lemma_run_jobs_len(step, s0, jobs.drop_last());
    }
}

/// Jobs never interleave.
///
/// Law: under sequential processing, the result of the job at position `i`
/// is a function of the first `i` jobs alone — every state transition of an
/// earlier batch completes before a later batch's begin, and nothing
/// submitted later can reach back. Delivery, and whether any caller is still
/// waiting, plays no part in it.
pub proof fn lemma_jobs_never_interleave<S, J, R>(
    step: spec_fn(S, J) -> (S, R),
    s0: S,
    jobs: Seq<J>,
    i: int,
)
    requires
        0 <= i < jobs.len(),
    ensures
        run_jobs(step, s0, jobs).len() == jobs.len(),
        run_jobs(step, s0, jobs)[i] == step(state_after(step, s0, jobs.take(i)), jobs[i]).1,
    decreases jobs.len(),
{
    lemma_run_jobs_len(step, s0, jobs);
    if jobs.len() == i + 1 {
        assert(jobs.take(i) =~= jobs.drop_last());
        lemma_run_jobs_len(step, s0, jobs.drop_last());
    } else {
        lemma_jobs_never_interleave(step, s0, jobs.drop_last(), i);
        assert(jobs.drop_last().take(i) =~= jobs.take(i));
        assert(jobs.drop_last()[i] == jobs[i]);
    }
}

} // verus!
