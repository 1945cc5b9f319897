use vstd::prelude::*;

verus! {

use crate::big_uint::BigUint;
use crate::byte_ops::{clone_bytes, clone_bytes_list, eq_bytes};
use crate::call_value::CallValueError;
use crate::tx_input::{clone_transfers, transfers_of, Address, TxInput, TxInputDCT, TxInputV, TxTransferV};
use crate::tx_log::{TxLog, TxLogV};
use crate::world_state::{
    apply_dct_transfer, apply_moax_transfer, has_account, AccountV, TransferError, WorldState,
};

/// Why a call frame failed: gas ran out, the called endpoint does not
/// exist, a value movement was refused, the value transfer resolver
/// refused the payment, or the contract signalled an error itself.
#[derive(Clone, Copy, Debug, PartialEq, Eq, Structural)]
pub enum ExecutionError {
    GasExhausted,
    FunctionNotFound,
    Transfer(TransferError),
    CallValue(CallValueError),
    SignalledError,
}

/// The final status of a call frame or of a whole transaction.
#[derive(Clone, Copy, Debug, PartialEq, Eq, Structural)]
pub enum TxResultStatus {
    Success,
    Failure(ExecutionError),
}

impl TxResultStatus {
    pub fn is_success(&self) -> (r: bool)
        ensures
            r == (*self is Success),
    {
        match self {
            TxResultStatus::Success => true,
            TxResultStatus::Failure(_) => false,
        }
    }
}

/// What the mock execution engine produces for one transaction: the final
/// status and the ordered logs of the committed frames.
#[derive(Debug)]
pub struct TxResult {
    pub status: TxResultStatus,
    pub logs: Vec<TxLog>,
}

/// The expectation on a transaction's final status: left unspecified, or
/// success, or failure for any reason.
#[derive(Clone, Copy, Debug, PartialEq, Eq, Structural)]
pub enum CheckStatus {
    Unspecified,
    Success,
    Failure,
}

/// Whether a status expectation accepts an actual status.
pub open spec fn check_status_matches(p: CheckStatus, s: TxResultStatus) -> bool {
    match p {
        CheckStatus::Unspecified => true,
        CheckStatus::Success => s is Success,
        CheckStatus::Failure => s is Failure,
    }
}

impl CheckStatus {
    /// Decides whether the expectation accepts the actual status.
    pub fn check(&self, status: &TxResultStatus) -> (r: bool)
        ensures
            r == check_status_matches(*self, *status),
    {
        match self {
            CheckStatus::Unspecified => true,
            CheckStatus::Success => status.is_success(),
            CheckStatus::Failure => !status.is_success(),
        }
    }
}

/// A child call synthesized by contract logic: everything of a descriptor
/// except the sender, which is the synthesizing contract itself.
#[derive(Debug)]
pub struct NestedCall {
    pub to: Address,
    pub moax_value: BigUint,
    pub dct_values: Vec<TxInputDCT>,
    pub func_name: Vec<u8>,
    pub arguments: Vec<Vec<u8>>,
    pub gas_limit: u64,
}

/// The mathematical content of a nested call.
pub struct NestedCallV {
    pub to: Seq<u8>,
    pub moax_value: nat,
    pub dct_values: Seq<TxTransferV>,
    pub func_name: Seq<u8>,
    pub arguments: Seq<Seq<u8>>,
    pub gas_limit: u64,
}

impl View for NestedCall {
    type V = NestedCallV;

    open spec fn view(&self) -> NestedCallV {
        NestedCallV {
            to: self.to@,
            moax_value: self.moax_value@,
            dct_values: transfers_of(self.dct_values@),
            func_name: self.func_name@,
            arguments: self.arguments@.map_values(|a: Vec<u8>| a@),
            gas_limit: self.gas_limit,
        }
    }
}

/// One step of mock contract logic. A frame executes its endpoint's
/// instructions in order; the call instructions synthesize child
/// descriptors.
#[derive(Debug)]
pub enum TxInstruction {
    /// Append a log entry under the executing contract's address.
    EmitLog { endpoint: Vec<u8>, topics: Vec<Vec<u8>>, data: Vec<u8> },
    /// Fail unless the call carries no value at all.
    CheckNotPayable,
    /// Accept either the native coin or exactly one token transfer; fail
    /// on more than one.
    AcceptMoaxOrSingleDct,
    /// Accept exactly one fungible token transfer.
    AcceptSingleFungibleDct,
    /// Signal an error: the frame fails and rolls back.
    SignalError,
    /// Run a child frame to completion before resuming; with `catch` a
    /// failing child is tolerated instead of propagated.
    SyncCall { call: NestedCall, catch: bool },
    /// Move the value unconditionally, then run the child frame; a failing
    /// child does not undo the movement.
    TransferExecute { call: NestedCall },
    /// Queue the child to run after the synchronous portion completes.
    AsyncCall { call: NestedCall },
}

/// The mathematical content of one instruction.
pub enum TxInstructionV {
    EmitLog { endpoint: Seq<u8>, topics: Seq<Seq<u8>>, data: Seq<u8> },
    CheckNotPayable,
    AcceptMoaxOrSingleDct,
    AcceptSingleFungibleDct,
    SignalError,
    SyncCall { call: NestedCallV, catch: bool },
    TransferExecute { call: NestedCallV },
    AsyncCall { call: NestedCallV },
}

impl View for TxInstruction {
    type V = TxInstructionV;

    open spec fn view(&self) -> TxInstructionV {
        match self {
            TxInstruction::EmitLog { endpoint, topics, data } => TxInstructionV::EmitLog {
                endpoint: endpoint@,
                topics: topics@.map_values(|t: Vec<u8>| t@),
                data: data@,
            },
            TxInstruction::CheckNotPayable => TxInstructionV::CheckNotPayable,
            TxInstruction::AcceptMoaxOrSingleDct => TxInstructionV::AcceptMoaxOrSingleDct,
            TxInstruction::AcceptSingleFungibleDct => TxInstructionV::AcceptSingleFungibleDct,
            TxInstruction::SignalError => TxInstructionV::SignalError,
            TxInstruction::SyncCall { call, catch } => TxInstructionV::SyncCall {
                call: call@,
                catch: *catch,
            },
            TxInstruction::TransferExecute { call } => TxInstructionV::TransferExecute {
                call: call@,
            },
            TxInstruction::AsyncCall { call } => TxInstructionV::AsyncCall { call: call@ },
        }
    }
}

/// One named endpoint of a mock contract: its instruction list.
#[derive(Debug)]
pub struct ContractEndpoint {
    pub name: Vec<u8>,
    pub instructions: Vec<TxInstruction>,
}

impl View for ContractEndpoint {
    type V = (Seq<u8>, Seq<TxInstructionV>);

    open spec fn view(&self) -> (Seq<u8>, Seq<TxInstructionV>) {
        (self.name@, self.instructions@.map_values(|i: TxInstruction| i@))
    }
}

/// The mock contracts the engine can call into, by endpoint name.
#[derive(Debug)]
pub struct ContractRegistry {
    pub endpoints: Vec<ContractEndpoint>,
}

impl View for ContractRegistry {
    type V = Seq<(Seq<u8>, Seq<TxInstructionV>)>;

    open spec fn view(&self) -> Seq<(Seq<u8>, Seq<TxInstructionV>)> {
        self.endpoints@.map_values(|e: ContractEndpoint| e@)
    }
}

/// The first endpoint registered under the name, if any.
pub open spec fn find_endpoint(
    reg: Seq<(Seq<u8>, Seq<TxInstructionV>)>,
    name: Seq<u8>,
) -> Option<Seq<TxInstructionV>>
    decreases reg.len(),
{
    if reg.len() == 0 {
        None
    } else if reg.first().0 == name {
        Some(reg.first().1)
    } else {
        find_endpoint(reg.drop_first(), name)
    }
}

/// An endpoint lookup skips any prefix of endpoints under other names.
proof fn lemma_find_endpoint_skip(reg: Seq<(Seq<u8>, Seq<TxInstructionV>)>, name: Seq<u8>, i: int)
    requires
        0 <= i <= reg.len(),
        forall|j: int| 0 <= j < i ==> (#[trigger] reg[j]).0 != name,
    ensures
        find_endpoint(reg, name) == find_endpoint(reg.skip(i), name),
    decreases i,
{
    if i > 0 {
        assert(reg.drop_first().skip(i - 1) =~= reg.skip(i));
        lemma_find_endpoint_skip(reg.drop_first(), name, i - 1);
    } else {
        assert(reg.skip(0) =~= reg);
    }
}

impl ContractRegistry {
    /// The instruction list registered under the endpoint name, if any.
    #[verifier::loop_isolation(false)]
    pub fn find(&self, name: &Vec<u8>) -> (r: Option<&Vec<TxInstruction>>)
        ensures
            match r {
                Option::Some(instrs) => find_endpoint(self@, name@) == Some(
                    instrs@.map_values(|i: TxInstruction| i@),
                ),
                Option::None => find_endpoint(self@, name@) is None,
            },
    {
        let mut i: usize = 0;
        let n = self.endpoints.len();
        while i < n
            invariant
                i <= n,
                forall|j: int| 0 <= j < i ==> (#[trigger] self@[j]).0 != name@,
            decreases n - i,
        {
            let e = &self.endpoints[i];
            if eq_bytes(&e.name, name) {
                proof {
                    lemma_find_endpoint_skip(self@, name@, i as int);
                    assert(self@.skip(i as int).first() == self@[i as int]);
                }
                return Some(&self.endpoints[i].instructions);
            }
            i += 1;
        }
        proof {
            lemma_find_endpoint_skip(self@, name@, n as int);
            assert(self@.skip(n as int) =~= Seq::<(Seq<u8>, Seq<TxInstructionV>)>::empty());
        }
        None
    }
}

/// The world after moving the value portion of a descriptor's token
/// transfer list from index `i` on, or the first refusal.
pub open spec fn apply_tx_transfers_from(w: Seq<AccountV>, tx: TxInputV, i: int) -> Result<
    Seq<AccountV>,
    TransferError,
>
    decreases tx.dct_values.len() - i,
{
    if i < 0 || i >= tx.dct_values.len() {
        Ok(w)
    } else {
        let d = tx.dct_values[i];
        match apply_dct_transfer(w, tx.from, tx.to, d.token_identifier, d.nonce, d.amount) {
            Some(w1) => apply_tx_transfers_from(w1, tx, i + 1),
            None => Err(
                if !(has_account(w, tx.from) && has_account(w, tx.to)) {
                    TransferError::UnknownAccount
                } else {
                    TransferError::InsufficientFunds
                },
            ),
        }
    }
}

/// The world after moving everything a descriptor carries, native amount
/// first and then each token transfer in order, or the first refusal.
pub open spec fn apply_tx_value_spec(w: Seq<AccountV>, tx: TxInputV) -> Result<
    Seq<AccountV>,
    TransferError,
> {
    match apply_moax_transfer(w, tx.from, tx.to, tx.moax_value) {
        Some(w1) => apply_tx_transfers_from(w1, tx, 0),
        None => Err(
            if !(has_account(w, tx.from) && has_account(w, tx.to)) {
                TransferError::UnknownAccount
            } else {
                TransferError::InsufficientFunds
            },
        ),
    }
}

/// Moves everything the descriptor carries from sender to receiver, or
/// refuses and leaves the world exactly as it was.
pub fn apply_tx_value(world: &mut WorldState, tx: &TxInput) -> (r: Result<(), TransferError>)
    ensures
        r is Ok <==> apply_tx_value_spec(old(world)@, tx@) is Ok,
        r is Ok ==> final(world)@ == apply_tx_value_spec(old(world)@, tx@)->Ok_0,
        r is Err ==> final(world)@ == old(world)@ && apply_tx_value_spec(old(world)@, tx@)
            == Err::<Seq<AccountV>, TransferError>(r->Err_0),
{
    let snapshot = world.snapshot();
    match world.transfer_moax(&tx.from, &tx.to, &tx.moax_value) {
        Err(e) => {
            return Err(e);
        },
        Ok(()) => {},
    }
    let ghost w1 = world@;
    let mut i: usize = 0;
    let n = tx.dct_values.len();
    while i < n
        invariant
            i <= n,
            n == tx.dct_values@.len(),
            tx@.dct_values.len() == n,
            snapshot@ == old(world)@,
            apply_tx_transfers_from(w1, tx@, 0) == apply_tx_transfers_from(world@, tx@, i as int),
            apply_moax_transfer(old(world)@, tx@.from, tx@.to, tx@.moax_value) == Some(w1),
        decreases n - i,
    {
        let d = &tx.dct_values[i];
        assert(d@ == tx@.dct_values[i as int]);
        match world.transfer_dct(&tx.from, &tx.to, &d.token_identifier, d.nonce, &d.value) {
            Err(e) => {
                assert(apply_tx_transfers_from(world@, tx@, i as int) == Err::<
                    Seq<AccountV>,
                    TransferError,
                >(e));
                *world = snapshot;
                return Err(e);
            },
            Ok(()) => {},
        }
        i += 1;
    }
    assert(apply_tx_transfers_from(world@, tx@, n as int) == Ok::<Seq<AccountV>, TransferError>(
        world@,
    ));
    Ok(())
}

/// The content of a list of log entries.
pub open spec fn logs_of(s: Seq<TxLog>) -> Seq<TxLogV> {
    s.map_values(|l: TxLog| l@)
}

/// The content of a list of descriptors.
pub open spec fn txs_of(s: Seq<TxInput>) -> Seq<TxInputV> {
    s.map_values(|t: TxInput| t@)
}

/// The content of an instruction list.
pub open spec fn instr_views(s: Seq<TxInstruction>) -> Seq<TxInstructionV> {
    s.map_values(|x: TxInstruction| x@)
}

/// The descriptor of a child call: the synthesizing contract is the
/// sender, gas price and transaction hash are inherited.
pub open spec fn child_tx_of(parent: TxInputV, call: NestedCallV) -> TxInputV {
    TxInputV {
        from: parent.to,
        to: call.to,
        moax_value: call.moax_value,
        dct_values: call.dct_values,
        func_name: call.func_name,
        args: call.arguments,
        gas_limit: call.gas_limit,
        gas_price: parent.gas_price,
        tx_hash: parent.tx_hash,
    }
}

/// What one frame leaves behind: the world, the logs it committed, the
/// queue of deferred calls, and its status.
pub struct FrameOutcomeV {
    pub world: Seq<AccountV>,
    pub logs: Seq<TxLogV>,
    pub queue: Seq<TxInputV>,
    pub status: TxResultStatus,
}

/// A failing step: the world and queue as handed in, the given error.
pub open spec fn fail_outcome(
    w: Seq<AccountV>,
    logs: Seq<TxLogV>,
    queue: Seq<TxInputV>,
    e: ExecutionError,
) -> FrameOutcomeV {
    FrameOutcomeV { world: w, logs, queue, status: TxResultStatus::Failure(e) }
}

/// One call frame, mathematically: out of gas fails at once; then the
/// carried value moves from sender to receiver; an empty function name is
/// a plain transfer; otherwise the named endpoint's instructions run with
/// one unit of gas consumed. A failing frame restores the world, the
/// queue and the logs exactly as they were on entry.
pub open spec fn frame_spec(
    w: Seq<AccountV>,
    reg: Seq<(Seq<u8>, Seq<TxInstructionV>)>,
    tx: TxInputV,
    gas: nat,
    queue: Seq<TxInputV>,
) -> FrameOutcomeV
    decreases gas, 0int, 0int,
{
    if gas == 0 {
        fail_outcome(w, Seq::empty(), queue, ExecutionError::GasExhausted)
    } else {
        match apply_tx_value_spec(w, tx) {
            Err(e) => fail_outcome(w, Seq::empty(), queue, ExecutionError::Transfer(e)),
            Ok(w1) => {
                if tx.func_name.len() == 0 {
                    FrameOutcomeV {
                        world: w1,
                        logs: Seq::empty(),
                        queue,
                        status: TxResultStatus::Success,
                    }
                } else {
                    match find_endpoint(reg, tx.func_name) {
                        None => fail_outcome(
                            w,
                            Seq::empty(),
                            queue,
                            ExecutionError::FunctionNotFound,
                        ),
                        Some(instrs) => {
                            let o = instrs_spec(
                                w1,
                                reg,
                                tx,
                                instrs,
                                (gas - 1) as nat,
                                queue,
                                Seq::empty(),
                            );
                            if o.status is Failure {
                                FrameOutcomeV {
                                    world: w,
                                    logs: Seq::empty(),
                                    queue,
                                    status: o.status,
                                }
                            } else {
                                o
                            }
                        },
                    }
                }
            },
        }
    }
}

/// The instructions of a frame, run in order, mathematically. Nested
/// synchronous calls run child frames depth-first; a caught child failure
/// is tolerated; transfer-and-execute moves the value even when its child
/// fails; asynchronous calls are queued, not run.
pub open spec fn instrs_spec(
    w: Seq<AccountV>,
    reg: Seq<(Seq<u8>, Seq<TxInstructionV>)>,
    tx: TxInputV,
    instrs: Seq<TxInstructionV>,
    gas: nat,
    queue: Seq<TxInputV>,
    logs: Seq<TxLogV>,
) -> FrameOutcomeV
    decreases gas, 1int, instrs.len(),
{
    if instrs.len() == 0 {
        FrameOutcomeV { world: w, logs, queue, status: TxResultStatus::Success }
    } else {
        let rest = instrs.drop_first();
        match instrs.first() {
            TxInstructionV::EmitLog { endpoint, topics, data } => instrs_spec(
                w,
                reg,
                tx,
                rest,
                gas,
                queue,
                logs.push(TxLogV { address: tx.to, endpoint, topics, data }),
            ),
            TxInstructionV::CheckNotPayable => {
                if tx.moax_value == 0 && tx.dct_values.len() == 0 {
                    instrs_spec(w, reg, tx, rest, gas, queue, logs)
                } else {
                    fail_outcome(
                        w,
                        logs,
                        queue,
                        ExecutionError::CallValue(CallValueError::NonPayable),
                    )
                }
            },
            TxInstructionV::AcceptMoaxOrSingleDct => {
                if tx.dct_values.len() <= 1 {
                    instrs_spec(w, reg, tx, rest, gas, queue, logs)
                } else {
                    fail_outcome(
                        w,
                        logs,
                        queue,
                        ExecutionError::CallValue(CallValueError::IncorrectNumDctTransfers),
                    )
                }
            },
            TxInstructionV::AcceptSingleFungibleDct => {
                if tx.dct_values.len() != 1 {
                    fail_outcome(
                        w,
                        logs,
                        queue,
                        ExecutionError::CallValue(CallValueError::IncorrectNumDctTransfers),
                    )
                } else if tx.dct_values[0].nonce != 0 {
                    fail_outcome(
                        w,
                        logs,
                        queue,
                        ExecutionError::CallValue(CallValueError::FungibleTokenExpected),
                    )
                } else {
                    instrs_spec(w, reg, tx, rest, gas, queue, logs)
                }
            },
            TxInstructionV::SignalError => fail_outcome(
                w,
                logs,
                queue,
                ExecutionError::SignalledError,
            ),
            TxInstructionV::SyncCall { call, catch } => {
                let co = frame_spec(w, reg, child_tx_of(tx, call), gas, queue);
                if co.status is Success {
                    instrs_spec(co.world, reg, tx, rest, gas, co.queue, logs + co.logs)
                } else if catch {
                    instrs_spec(co.world, reg, tx, rest, gas, co.queue, logs)
                } else {
                    FrameOutcomeV { world: co.world, logs, queue: co.queue, status: co.status }
                }
            },
            TxInstructionV::TransferExecute { call } => {
                let child = child_tx_of(tx, call);
                let co = frame_spec(w, reg, child, gas, queue);
                if co.status is Success {
                    instrs_spec(co.world, reg, tx, rest, gas, co.queue, logs + co.logs)
                } else {
                    match apply_tx_value_spec(w, child) {
                        Ok(w2) => instrs_spec(w2, reg, tx, rest, gas, queue, logs),
                        Err(e) => fail_outcome(w, logs, queue, ExecutionError::Transfer(e)),
                    }
                }
            },
            TxInstructionV::AsyncCall { call } => instrs_spec(
                w,
                reg,
                tx,
                rest,
                gas,
                queue.push(child_tx_of(tx, call)),
                logs,
            ),
        }
    }
}

/// Builds the descriptor of a child call.
pub fn make_child_tx(parent: &TxInput, call: &NestedCall) -> (r: TxInput)
    ensures
        r@ == child_tx_of(parent@, call@),
{
    let r = TxInput {
        from: parent.to.duplicate(),
        to: call.to.duplicate(),
        moax_value: call.moax_value.duplicate(),
        dct_values: clone_transfers(&call.dct_values),
        func_name: clone_bytes(&call.func_name),
        args: clone_bytes_list(&call.arguments),
        gas_limit: call.gas_limit,
        gas_price: parent.gas_price,
        tx_hash: parent.tx_hash.duplicate(),
    };
    assert(r@.dct_values =~= call@.dct_values);
    assert(r@.args =~= call@.arguments);
    r
}

/// Appends copies of the given logs, in order.
fn append_logs(dst: &mut Vec<TxLog>, src: &Vec<TxLog>)
    ensures
        logs_of(final(dst)@) == logs_of(old(dst)@) + logs_of(src@),
{
    let mut i: usize = 0;
    while i < src.len()
        invariant
            i <= src.len(),
            dst@.len() == old(dst)@.len() + i,
            forall|j: int| 0 <= j < old(dst)@.len() ==> dst@[j] == old(dst)@[j],
            forall|j: int|
                0 <= j < i ==> dst@[old(dst)@.len() + j]@ == src@[j]@,
        decreases src.len() - i,
    {
        dst.push(src[i].duplicate());
        i += 1;
    }
    assert(logs_of(final(dst)@) =~= logs_of(old(dst)@) + logs_of(src@));
}

/// Cuts the queue back to its first `n` entries.
fn truncate_tx_queue(queue: &mut Vec<TxInput>, n: usize)
    requires
        n <= old(queue)@.len(),
    ensures
        final(queue)@ == old(queue)@.subrange(0, n as int),
{
    while queue.len() > n
        invariant
            n <= queue@.len() <= old(queue)@.len(),
            queue@ == old(queue)@.subrange(0, queue@.len() as int),
        decreases queue@.len() - n,
    {
        let ghost k = queue@.len() as int;
        let _ = queue.pop();
        assert(queue@ =~= old(queue)@.subrange(0, k - 1));
    }
}

/// Runs one call frame against the world: takes the snapshot, moves the
/// carried value, runs the endpoint, and on any failure restores the
/// world and the queue exactly as they were on entry.
pub fn execute_frame(
    world: &mut WorldState,
    registry: &ContractRegistry,
    tx: &TxInput,
    gas: u64,
    queue: &mut Vec<TxInput>,
) -> (r: (TxResultStatus, Vec<TxLog>))
    ensures
        ({
            let o = frame_spec(old(world)@, registry@, tx@, gas as nat, txs_of(old(queue)@));
            &&& final(world)@ == o.world
            &&& txs_of(final(queue)@) == o.queue
            &&& logs_of(r.1@) == o.logs
            &&& r.0 == o.status
        }),
        final(queue)@.len() >= old(queue)@.len(),
        final(queue)@.subrange(0, old(queue)@.len() as int) == old(queue)@,
    decreases gas, 0int, 0int,
{
    let ghost o = frame_spec(old(world)@, registry@, tx@, gas as nat, txs_of(old(queue)@));
    if gas == 0 {
        let logs: Vec<TxLog> = Vec::new();
        assert(logs_of(logs@) =~= Seq::<TxLogV>::empty());
        assert(final(queue)@.subrange(0, old(queue)@.len() as int) =~= old(queue)@);
        return (TxResultStatus::Failure(ExecutionError::GasExhausted), logs);
    }
    let snapshot = world.snapshot();
    let n0 = queue.len();
    match apply_tx_value(world, tx) {
        Err(e) => {
            let logs: Vec<TxLog> = Vec::new();
            assert(logs_of(logs@) =~= Seq::<TxLogV>::empty());
            assert(final(queue)@.subrange(0, old(queue)@.len() as int) =~= old(queue)@);
            return (TxResultStatus::Failure(ExecutionError::Transfer(e)), logs);
        },
        Ok(()) => {},
    }
    if tx.func_name.len() == 0 {
        let logs: Vec<TxLog> = Vec::new();
        assert(logs_of(logs@) =~= Seq::<TxLogV>::empty());
        assert(final(queue)@.subrange(0, old(queue)@.len() as int) =~= old(queue)@);
        return (TxResultStatus::Success, logs);
    }
    match registry.find(&tx.func_name) {
        None => {
            *world = snapshot;
            let logs: Vec<TxLog> = Vec::new();
            assert(logs_of(logs@) =~= Seq::<TxLogV>::empty());
            assert(final(queue)@.subrange(0, old(queue)@.len() as int) =~= old(queue)@);
            return (TxResultStatus::Failure(ExecutionError::FunctionNotFound), logs);
        },
        Some(instrs) => {
            let mut logs: Vec<TxLog> = Vec::new();
            assert(logs_of(logs@) =~= Seq::<TxLogV>::empty());
            let status = execute_instructions(
                world,
                registry,
                tx,
                instrs,
                0,
                gas - 1,
                queue,
                &mut logs,
            );
            assert(instr_views(instrs@).skip(0) =~= instr_views(instrs@));
            if status.is_success() {
                assert(final(queue)@.subrange(0, old(queue)@.len() as int) =~= old(queue)@);
                (status, logs)
            } else {
                *world = snapshot;
                truncate_tx_queue(queue, n0);
                let empty_logs: Vec<TxLog> = Vec::new();
                assert(logs_of(empty_logs@) =~= Seq::<TxLogV>::empty());
                assert(final(queue)@ == old(queue)@);
                assert(final(queue)@.subrange(0, old(queue)@.len() as int) =~= old(queue)@);
                (status, empty_logs)
            }
        },
    }
}

/// Runs the instructions of a frame from index `i` on, in order.
pub fn execute_instructions(
    world: &mut WorldState,
    registry: &ContractRegistry,
    tx: &TxInput,
    instrs: &Vec<TxInstruction>,
    i: usize,
    gas: u64,
    queue: &mut Vec<TxInput>,
    logs: &mut Vec<TxLog>,
) -> (r: TxResultStatus)
    requires
        i <= instrs@.len(),
    ensures
        ({
            let o = instrs_spec(
                old(world)@,
                registry@,
                tx@,
                instr_views(instrs@).skip(i as int),
                gas as nat,
                txs_of(old(queue)@),
                logs_of(old(logs)@),
            );
            &&& final(world)@ == o.world
            &&& txs_of(final(queue)@) == o.queue
            &&& logs_of(final(logs)@) == o.logs
            &&& r == o.status
        }),
        final(queue)@.len() >= old(queue)@.len(),
        final(queue)@.subrange(0, old(queue)@.len() as int) == old(queue)@,
    decreases gas, 1int, instrs@.len() - i,
{
    let ghost s = instr_views(instrs@).skip(i as int);
    if i == instrs.len() {
        assert(s.len() == 0);
        assert(final(queue)@.subrange(0, old(queue)@.len() as int) =~= old(queue)@);
        return TxResultStatus::Success;
    }
    assert(s.first() == instrs@[i as int]@);
    assert(s.drop_first() =~= instr_views(instrs@).skip(i as int + 1));
    let instr = &instrs[i];
    match instr {
        TxInstruction::EmitLog { endpoint, topics, data } => {
            let log = TxLog {
                address: tx.to.duplicate(),
                endpoint: clone_bytes(endpoint),
                topics: clone_bytes_list(topics),
                data: clone_bytes(data),
            };
            assert(log@.topics =~= topics@.map_values(|t: Vec<u8>| t@));
            logs.push(log);
            assert(logs_of(logs@) =~= logs_of(old(logs)@).push(log@));
            execute_instructions(world, registry, tx, instrs, i + 1, gas, queue, logs)
        },
        TxInstruction::CheckNotPayable => {
            let cv = crate::call_value::CallValueWrapper::new(
                crate::call_value::DebugApi::from_input(tx),
            );
            match cv.check_not_payable() {
                Ok(()) => execute_instructions(world, registry, tx, instrs, i + 1, gas, queue, logs),
                Err(e) => {
                    assert(final(queue)@.subrange(0, old(queue)@.len() as int) =~= old(queue)@);
                    TxResultStatus::Failure(ExecutionError::CallValue(e))
                },
            }
        },
        TxInstruction::AcceptMoaxOrSingleDct => {
            let cv = crate::call_value::CallValueWrapper::new(
                crate::call_value::DebugApi::from_input(tx),
            );
            match cv.moax_or_single_dct() {
                Ok(_) => execute_instructions(world, registry, tx, instrs, i + 1, gas, queue, logs),
                Err(e) => {
                    assert(final(queue)@.subrange(0, old(queue)@.len() as int) =~= old(queue)@);
                    TxResultStatus::Failure(ExecutionError::CallValue(e))
                },
            }
        },
        TxInstruction::AcceptSingleFungibleDct => {
            let cv = crate::call_value::CallValueWrapper::new(
                crate::call_value::DebugApi::from_input(tx),
            );
            match cv.single_fungible_dct() {
                Ok(_) => execute_instructions(world, registry, tx, instrs, i + 1, gas, queue, logs),
                Err(e) => {
                    assert(final(queue)@.subrange(0, old(queue)@.len() as int) =~= old(queue)@);
                    TxResultStatus::Failure(ExecutionError::CallValue(e))
                },
            }
        },
        TxInstruction::SignalError => {
            assert(final(queue)@.subrange(0, old(queue)@.len() as int) =~= old(queue)@);
            TxResultStatus::Failure(ExecutionError::SignalledError)
        },
        TxInstruction::SyncCall { call, catch } => {
            let child = make_child_tx(tx, call);
            let (cs, clogs) = execute_frame(world, registry, &child, gas, queue);
            if cs.is_success() {
                append_logs(logs, &clogs);
                execute_instructions(world, registry, tx, instrs, i + 1, gas, queue, logs)
            } else if *catch {
                execute_instructions(world, registry, tx, instrs, i + 1, gas, queue, logs)
            } else {
                cs
            }
        },
        TxInstruction::TransferExecute { call } => {
            let child = make_child_tx(tx, call);
            let (cs, clogs) = execute_frame(world, registry, &child, gas, queue);
            if cs.is_success() {
                append_logs(logs, &clogs);
                execute_instructions(world, registry, tx, instrs, i + 1, gas, queue, logs)
            } else {
                match apply_tx_value(world, &child) {
                    Ok(()) => execute_instructions(
                        world,
                        registry,
                        tx,
                        instrs,
                        i + 1,
                        gas,
                        queue,
                        logs,
                    ),
                    Err(e) => {
                        assert(final(queue)@.subrange(0, old(queue)@.len() as int) =~= old(
                            queue,
                        )@);
                        TxResultStatus::Failure(ExecutionError::Transfer(e))
                    },
                }
            }
        },
        TxInstruction::AsyncCall { call } => {
            let child = make_child_tx(tx, call);
            queue.push(child);
            assert(txs_of(queue@) =~= txs_of(old(queue)@).push(queue@.last()@));
            assert(queue@.subrange(0, old(queue)@.len() as int) =~= old(queue)@);
            execute_instructions(world, registry, tx, instrs, i + 1, gas, queue, logs)
        },
    }
}

/// The designated callback entry point: the ASCII bytes of "callBack".
pub open spec fn callback_name() -> Seq<u8> {
    seq![99u8, 97u8, 108u8, 108u8, 66u8, 97u8, 99u8, 107u8]
}

/// The callback entry point's name as a byte string.
pub fn callback_endpoint_name() -> (r: Vec<u8>)
    ensures
        r@ == callback_name(),
{
    let mut v: Vec<u8> = Vec::new();
    v.push(99);
    v.push(97);
    v.push(108);
    v.push(108);
    v.push(66);
    v.push(97);
    v.push(99);
    v.push(107);
    assert(v@ =~= callback_name());
    v
}

/// The descriptor delivering a deferred call's result back to its caller:
/// one argument, a single byte that is 0 on success and 1 on failure.
pub open spec fn callback_tx_of(child: TxInputV, ok: bool) -> TxInputV {
    TxInputV {
        from: child.to,
        to: child.from,
        moax_value: 0,
        dct_values: Seq::empty(),
        func_name: callback_name(),
        args: seq![seq![if ok { 0u8 } else { 1u8 }]],
        gas_limit: child.gas_limit,
        gas_price: child.gas_price,
        tx_hash: child.tx_hash,
    }
}

/// Builds the callback descriptor for a drained deferred call.
pub fn make_callback_tx(child: &TxInput, ok: bool) -> (r: TxInput)
    ensures
        r@ == callback_tx_of(child@, ok),
{
    let mut arg: Vec<u8> = Vec::new();
    if ok {
        arg.push(0);
    } else {
        arg.push(1);
    }
    let mut args: Vec<Vec<u8>> = Vec::new();
    args.push(arg);
    let r = TxInput {
        from: child.to.duplicate(),
        to: child.from.duplicate(),
        moax_value: BigUint::new_zero(),
        dct_values: Vec::new(),
        func_name: callback_endpoint_name(),
        args,
        gas_limit: child.gas_limit,
        gas_price: child.gas_price,
        tx_hash: child.tx_hash.duplicate(),
    };
    assert(r@.dct_values =~= Seq::<TxTransferV>::empty());
    assert(r@.args =~= seq![seq![if ok { 0u8 } else { 1u8 }]]);
    r
}

/// What draining the deferred-call queue leaves behind.
pub struct DrainOutcomeV {
    pub world: Seq<AccountV>,
    pub logs: Seq<TxLogV>,
    pub exhausted: bool,
}

/// Draining the deferred calls, mathematically: items run in submission
/// order, each in a frame of its own; a deferred call may queue further
/// calls, which run after it; after each, its result is delivered to the
/// caller's callback entry point, if the registry has one. Each drained
/// item costs one unit of the budget; a drained queue that is not empty
/// when the budget ends is gas exhaustion.
pub open spec fn drain_spec(
    w: Seq<AccountV>,
    reg: Seq<(Seq<u8>, Seq<TxInstructionV>)>,
    queue: Seq<TxInputV>,
    head: int,
    logs: Seq<TxLogV>,
    budget: nat,
) -> DrainOutcomeV
    decreases budget,
{
    if head < 0 || head >= queue.len() {
        DrainOutcomeV { world: w, logs, exhausted: false }
    } else if budget == 0 {
        DrainOutcomeV { world: w, logs, exhausted: true }
    } else {
        let co = frame_spec(w, reg, queue[head], budget, queue);
        let ok = co.status is Success;
        if find_endpoint(reg, callback_name()) is Some {
            let cb = frame_spec(co.world, reg, callback_tx_of(queue[head], ok), budget, co.queue);
            drain_spec(
                cb.world,
                reg,
                cb.queue,
                head + 1,
                logs + co.logs + cb.logs,
                (budget - 1) as nat,
            )
        } else {
            drain_spec(co.world, reg, co.queue, head + 1, logs + co.logs, (budget - 1) as nat)
        }
    }
}

/// One whole transaction, mathematically: the synchronous frame first — a
/// failure there aborts everything — then the deferred calls, drained in
/// submission order. Running out of budget while items remain restores
/// the world as it was before the transaction.
pub open spec fn run_tx_spec(
    w: Seq<AccountV>,
    reg: Seq<(Seq<u8>, Seq<TxInstructionV>)>,
    tx: TxInputV,
    gas: nat,
) -> (Seq<AccountV>, Seq<TxLogV>, TxResultStatus) {
    let o = frame_spec(w, reg, tx, gas, Seq::empty());
    if o.status is Failure {
        (w, Seq::empty(), o.status)
    } else {
        let d = drain_spec(o.world, reg, o.queue, 0, o.logs, gas);
        if d.exhausted {
            (w, Seq::empty(), TxResultStatus::Failure(ExecutionError::GasExhausted))
        } else {
            (d.world, d.logs, TxResultStatus::Success)
        }
    }
}

/// Runs one transaction to completion: the synchronous frame, then the
/// deferred calls with their callbacks, in submission order.
#[verifier::loop_isolation(false)]
pub fn run_transaction(
    world: &mut WorldState,
    registry: &ContractRegistry,
    tx: &TxInput,
    gas: u64,
) -> (r: TxResult)
    ensures
        ({
            let (w2, lgs, st) = run_tx_spec(old(world)@, registry@, tx@, gas as nat);
            &&& final(world)@ == w2
            &&& logs_of(r.logs@) == lgs
            &&& r.status == st
        }),
{
    let initial = world.snapshot();
    let mut queue: Vec<TxInput> = Vec::new();
    assert(txs_of(queue@) =~= Seq::<TxInputV>::empty());
    let (status, mut logs) = execute_frame(world, registry, tx, gas, &mut queue);
    if !status.is_success() {
        return TxResult { status, logs };
    }
    let ghost top = drain_spec(
        world@,
        registry@,
        txs_of(queue@),
        0,
        logs_of(logs@),
        gas as nat,
    );
    let mut head: usize = 0;
    let mut budget: u64 = gas;
    let cbn = callback_endpoint_name();
    while head < queue.len()
        invariant
            head <= queue@.len(),
            top == drain_spec(
                world@,
                registry@,
                txs_of(queue@),
                head as int,
                logs_of(logs@),
                budget as nat,
            ),
        decreases budget,
    {
        if budget == 0 {
            *world = initial;
            let empty_logs: Vec<TxLog> = Vec::new();
            assert(logs_of(empty_logs@) =~= Seq::<TxLogV>::empty());
            return TxResult {
                status: TxResultStatus::Failure(ExecutionError::GasExhausted),
                logs: empty_logs,
            };
        }
        let ghost w_i = world@;
        let ghost q_i = txs_of(queue@);
        let ghost l_i = logs_of(logs@);
        let ghost b_i = budget as nat;
        let item = queue[head].duplicate();
        assert(item@ == q_i[head as int]);
        let (cs, clogs) = execute_frame(world, registry, &item, budget, &mut queue);
        let ghost co = frame_spec(w_i, registry@, q_i[head as int], b_i, q_i);
        assert(world@ == co.world && txs_of(queue@) == co.queue && logs_of(clogs@) == co.logs
            && cs == co.status);
        let ok = cs.is_success();
        match registry.find(&cbn) {
            Some(_) => {
                let cb_tx = make_callback_tx(&item, ok);
                let (_cbs, cblogs) = execute_frame(world, registry, &cb_tx, budget, &mut queue);
                let ghost cb = frame_spec(
                    co.world,
                    registry@,
                    callback_tx_of(q_i[head as int], ok),
                    b_i,
                    co.queue,
                );
                assert(world@ == cb.world && txs_of(queue@) == cb.queue && logs_of(cblogs@)
                    == cb.logs);
                append_logs(&mut logs, &clogs);
                append_logs(&mut logs, &cblogs);
                assert(logs_of(logs@) == l_i + co.logs + cb.logs);
                assert(drain_spec(w_i, registry@, q_i, head as int, l_i, b_i) == drain_spec(
                    cb.world,
                    registry@,
                    cb.queue,
                    head as int + 1,
                    l_i + co.logs + cb.logs,
                    (b_i - 1) as nat,
                ));
            },
            None => {
                append_logs(&mut logs, &clogs);
                assert(logs_of(logs@) == l_i + co.logs);
                assert(drain_spec(w_i, registry@, q_i, head as int, l_i, b_i) == drain_spec(
                    co.world,
                    registry@,
                    co.queue,
                    head as int + 1,
                    l_i + co.logs,
                    (b_i - 1) as nat,
                ));
            },
        }
        head += 1;
        budget -= 1;
    }
    TxResult { status: TxResultStatus::Success, logs }
}

/// Rollback: a failing call frame leaves the World State, the queue of
/// deferred calls and the committed logs exactly as they were when the
/// frame was entered.
pub proof fn lemma_failed_frame_rolls_back(
    w: Seq<AccountV>,
    reg: Seq<(Seq<u8>, Seq<TxInstructionV>)>,
    tx: TxInputV,
    gas: nat,
    queue: Seq<TxInputV>,
)
    ensures
        ({
            let o = frame_spec(w, reg, tx, gas, queue);
            o.status is Failure ==> o.world == w && o.queue == queue && o.logs == Seq::<
                TxLogV,
            >::empty()
        }),
{
}

/// Transfer-and-execute moves the value even when its child frame fails:
/// the enclosing frame then goes on from the entry world with exactly the
/// child's value moved — the one effect a rolled-back nested call keeps.
pub proof fn lemma_transfer_execute_moves_value(
    w: Seq<AccountV>,
    reg: Seq<(Seq<u8>, Seq<TxInstructionV>)>,
    tx: TxInputV,
    call: NestedCallV,
    rest: Seq<TxInstructionV>,
    gas: nat,
    queue: Seq<TxInputV>,
    logs: Seq<TxLogV>,
)
    requires
        frame_spec(w, reg, child_tx_of(tx, call), gas, queue).status is Failure,
    ensures
        ({
            let child = child_tx_of(tx, call);
            instrs_spec(
                w,
                reg,
                tx,
                seq![TxInstructionV::TransferExecute { call }] + rest,
                gas,
                queue,
                logs,
            ) == match apply_tx_value_spec(w, child) {
                Ok(w2) => instrs_spec(w2, reg, tx, rest, gas, queue, logs),
                Err(e) => fail_outcome(w, logs, queue, ExecutionError::Transfer(e)),
            }
        }),
{
    let s = seq![TxInstructionV::TransferExecute { call }] + rest;
    assert(s.first() == TxInstructionV::TransferExecute { call });
    assert(s.drop_first() =~= rest);
}

} // verus!

