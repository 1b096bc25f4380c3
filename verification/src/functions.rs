//! The function-binding trampolines: the logic that sits between the
//! embedding runtime's raw calling convention and a typed host callback.
//!
//! The raw boundary hands over an argument array, a pre-allocated result-slot
//! array and a per-call frame handle. The synchronous trampoline rebuilds
//! tagged arguments, invokes the typed callback, and either writes the typed
//! results back into the slots in order (success, zero result code) or maps
//! the callback's error to the raw result category the runtime expects. The
//! asynchronous trampoline is the same except that the callback's suspended
//! computation is driven to completion on the calling thread by a blocking
//! bridge, whose own failure collapses to one reserved user-level code.
//!
//! Everything the original boundary does with raw pointers — recovering the
//! erased callback and state pointers, viewing the raw arrays as slices —
//! stays with the embedding shim; the trampolines here take the recovered
//! typed values and decide everything else.

use vstd::prelude::*;

use crate::values::RawWasmValue;
use crate::values::WasmVal;
use crate::values::ValType;
use crate::values::spec_as_raw;
use crate::values::spec_from_raw;

verus! {

/// An error a typed host callback reports: either a code meaningful to the
/// embedding application (user level) or one meaningful to the virtual
/// machine itself (runtime level). Each maps to its own raw result category.
#[derive(Clone, Copy, Debug, PartialEq, Eq, Structural)]
pub enum HostFuncError {
    User(u32),
    Runtime(u32),
}

/// The raw result code structure returned across the calling convention:
/// a zero code (`Success`) or a nonzero code under one of the two error
/// categories, user-level or WASM-level.
#[derive(Clone, Copy, Debug, PartialEq, Eq, Structural)]
pub enum RawResult {
    Success,
    UserError(u32),
    WasmError(u32),
}

/// The reserved user-level code returned when the blocking bridge cannot
/// drive an asynchronous computation to completion.
pub const ASYNC_EXEC_FAILED: u32 = 0x87;

/// The per-invocation frame handle the runtime exposes to a callback,
/// recovered from the raw context address. The runtime owns the underlying
/// frame; the handle is only borrowed for the duration of one call and must
/// not be retained past it.
#[derive(Clone, Copy, Debug)]
pub struct CallingFrame {
    pub raw: usize,
}

impl CallingFrame {
    /// Reconstruct the borrowed frame handle from the raw context address
    /// supplied by the runtime for this call.
    pub fn from_raw(raw: usize) -> (r: CallingFrame)
        ensures
            r.raw == raw,
    {
        CallingFrame { raw }
    }
}

/// A typed synchronous host callback: the function a callable was registered
/// with, invoked with the call frame, exclusive access to the caller-owned
/// state, and the tagged arguments. What it returns is its own business; the
/// trampoline handles every outcome.
pub trait HostFn<T> {
    /// Run the callback for one invocation.
    fn call(&self, frame: &mut CallingFrame, data: &mut T, input: Vec<WasmVal>) -> Result<
        Vec<WasmVal>,
        HostFuncError,
    >;
}

/// What driving an asynchronous callback's suspended computation through the
/// blocking bridge can end in: the computation resolved (to a result or a
/// callback error), or the bridge itself failed to drive it to completion.
#[derive(Debug)]
pub enum BridgeOutcome {
    Completed(Result<Vec<WasmVal>, HostFuncError>),
    Failed,
}

/// A typed asynchronous host callback together with its blocking bridge:
/// one invocation produces the suspended computation and drives it to
/// completion on the calling thread, which stays blocked throughout. Any
/// concurrency runtime can stand behind this interface; the trampoline only
/// sees the outcome.
pub trait AsyncHostFn<T> {
    /// Run the callback for one invocation and drive its computation on the
    /// blocking bridge.
    fn call_on_bridge(&self, frame: CallingFrame, data: &mut T, input: Vec<WasmVal>) -> BridgeOutcome;
}

/// The raw forms of a callback's typed results, in order.
pub open spec fn spec_raw_results(rets: Seq<WasmVal>) -> Seq<RawWasmValue> {
    rets.map_values(|v: WasmVal| spec_as_raw(v))
}

/// The raw result code a callback error maps to: a user-level error becomes
/// a user-category result carrying the user's code, a runtime-level error a
/// WASM-category result carrying the runtime code.
pub open spec fn spec_error_result(e: HostFuncError) -> RawResult {
    match e {
        HostFuncError::User(code) => RawResult::UserError(code),
        HostFuncError::Runtime(code) => RawResult::WasmError(code),
    }
}

/// Everything a trampoline does after the callback has returned, as one
/// relation: given the callback's outcome and the result slots before the
/// call, which slot contents and which verdict the trampoline hands back.
///
/// On success with as many results as slots, the slots hold the raw forms of
/// the results in order and the verdict is the zero result code. On success
/// with the wrong number of results — a registration defect, not a runtime
/// condition — the verdict is `None` (the shim at the raw boundary aborts)
/// and no slot is written. On a callback error the slots are untouched and
/// the verdict carries the error's raw category and code.
pub open spec fn trampoline_post(
    outcome: Result<Vec<WasmVal>, HostFuncError>,
    old_slots: Seq<RawWasmValue>,
    new_slots: Seq<RawWasmValue>,
    verdict: Option<RawResult>,
) -> bool {
    match outcome {
        Ok(rets) => if rets@.len() == old_slots.len() {
            new_slots == spec_raw_results(rets@) && verdict == Some(RawResult::Success)
        } else {
            new_slots == old_slots && verdict is None
        },
        Err(e) => new_slots == old_slots && verdict == Some(spec_error_result(e)),
    }
}

/// Rebuild the tagged argument sequence from the raw argument array, in
/// order, by the total raw-to-tagged conversion.
pub fn marshal_params(params: &Vec<RawWasmValue>) -> (r: Vec<WasmVal>)
    ensures
        r@ == params@.map_values(|raw: RawWasmValue| spec_from_raw(raw)),
{
    let mut out: Vec<WasmVal> = Vec::new();
    let n = params.len();
    let mut i: usize = 0;
    while i < n
        invariant
            i <= n,
            n == params@.len(),
            out@ =~= params@.subrange(0, i as int).map_values(
                |raw: RawWasmValue| spec_from_raw(raw),
            ),
        decreases n - i,
    {
        out.push(WasmVal::from(params[i]));
        proof {
            assert(params@.subrange(0, i + 1 as int).drop_last() =~= params@.subrange(0, i as int));
            assert(out@ =~= params@.subrange(0, i + 1 as int).map_values(
                |raw: RawWasmValue| spec_from_raw(raw),
            ));
        }
        i = i + 1;
    }
    proof {
        assert(params@.subrange(0, n as int) =~= params@);
    }
    out
}

/// Finish a call whose callback outcome is known: on success write the raw
/// form of each result into its slot in order and return the zero result
/// code; on error leave every slot as it was and return the error's raw
/// category and code. A successful outcome must carry exactly one result per
/// pre-allocated slot — the trampoline has already checked that.
pub fn complete_call(
    outcome: Result<Vec<WasmVal>, HostFuncError>,
    slots: &mut Vec<RawWasmValue>,
) -> (r: RawResult)
    requires
        outcome matches Ok(rets) ==> rets@.len() == old(slots)@.len(),
    ensures
        outcome matches Ok(rets) ==> final(slots)@ == spec_raw_results(rets@) && r
            == RawResult::Success,
        outcome matches Err(e) ==> final(slots)@ == old(slots)@ && r == spec_error_result(e),
{
    match outcome {
        Ok(rets) => {
            let n = rets.len();
            let mut i: usize = 0;
            while i < n
                invariant
                    i <= n,
                    n == rets@.len(),
                    slots@.len() == old(slots)@.len(),
                    n == old(slots)@.len(),
                    forall|j: int|
                        0 <= j < i ==> slots@[j] == #[trigger] spec_as_raw(rets@[j]),
                    forall|j: int| i <= j < n ==> slots@[j] == old(slots)@[j],
                decreases n - i,
            {
                slots[i] = rets[i].as_raw();
                i = i + 1;
            }
            proof {
                assert(slots@ =~= spec_raw_results(rets@));
            }
            RawResult::Success
        },
        Err(e) => match e {
            HostFuncError::User(code) => RawResult::UserError(code),
            HostFuncError::Runtime(code) => RawResult::WasmError(code),
        },
    }
}

/// The synchronous trampoline, past the raw boundary: rebuild the tagged
/// arguments, invoke the typed callback with the frame and the caller-owned
/// state, and translate whatever it returns.
///
/// `Some(code)` is the raw result code to hand back: zero for success after
/// the slots were filled in order, or the callback error's category and
/// code with the slots untouched. `None` reports the one fatal contract
/// violation — the callback returned a different number of results than
/// there are slots — on which the shim at the raw boundary must abort, as a
/// defect in the registration rather than a runtime condition; no slot is
/// written then either. The state and the frame are whatever the callback
/// left behind.
pub fn wrap_fn<T, F: HostFn<T>>(
    real_fn: &F,
    data: &mut T,
    frame: &mut CallingFrame,
    params: &Vec<RawWasmValue>,
    slots: &mut Vec<RawWasmValue>,
) -> (r: Option<RawResult>)
    ensures
        final(slots)@.len() == old(slots)@.len(),
        exists|outcome: Result<Vec<WasmVal>, HostFuncError>|
            trampoline_post(outcome, old(slots)@, final(slots)@, r),
{
    let input = marshal_params(params);
    let outcome = real_fn.call(frame, data, input);
    let ghost witness = outcome;
    if let Ok(ref rets) = outcome {
        if rets.len() != slots.len() {
            proof {
                assert(trampoline_post(witness, slots@, slots@, Option::<RawResult>::None));
            }
            return Option::None;
        }
    }
    let code = complete_call(outcome, slots);
    proof {
        assert(trampoline_post(witness, old(slots)@, slots@, Some(code)));
    }
    Some(code)
}

/// The resolved outcome of one bridged asynchronous invocation: what the
/// computation produced if it completed, and the reserved "async execution
/// failed" user-level error — never a runtime-level one — if the bridge
/// could not drive it to completion.
pub open spec fn spec_resolve(outcome: BridgeOutcome) -> Result<Vec<WasmVal>, HostFuncError> {
    match outcome {
        BridgeOutcome::Completed(res) => res,
        BridgeOutcome::Failed => Err(HostFuncError::User(ASYNC_EXEC_FAILED)),
    }
}

/// Collapse a bridge outcome to a plain callback outcome, mapping a bridge
/// failure to the reserved user-level code.
pub fn resolve_async_outcome(outcome: BridgeOutcome) -> (r: Result<Vec<WasmVal>, HostFuncError>)
    ensures
        r == spec_resolve(outcome),
{
    match outcome {
        BridgeOutcome::Completed(res) => res,
        BridgeOutcome::Failed => Err(HostFuncError::User(ASYNC_EXEC_FAILED)),
    }
}

/// The asynchronous trampoline, past the raw boundary: rebuild the tagged
/// arguments, hand the callback's suspended computation to the blocking
/// bridge, and translate the outcome exactly as the synchronous trampoline
/// would, with a bridge failure standing in as the reserved user-level
/// error. The verdict reads as in [`wrap_fn`].
pub fn async_wrap_fn<T, F: AsyncHostFn<T>>(
    real_fn: &F,
    data: &mut T,
    frame: CallingFrame,
    params: &Vec<RawWasmValue>,
    slots: &mut Vec<RawWasmValue>,
) -> (r: Option<RawResult>)
    ensures
        final(slots)@.len() == old(slots)@.len(),
        exists|outcome: BridgeOutcome|
            trampoline_post(spec_resolve(outcome), old(slots)@, final(slots)@, r),
{
    let input = marshal_params(params);
    let bridged = real_fn.call_on_bridge(frame, data, input);
    let ghost witness = bridged;
    let outcome = resolve_async_outcome(bridged);
    if let Ok(ref rets) = outcome {
        if rets.len() != slots.len() {
            proof {
                assert(trampoline_post(
                    spec_resolve(witness),
                    slots@,
                    slots@,
                    Option::<RawResult>::None,
                ));
            }
            return Option::None;
        }
    }
    let code = complete_call(outcome, slots);
    proof {
        assert(trampoline_post(spec_resolve(witness), old(slots)@, slots@, Some(code)));
    }
    Some(code)
}

/// An asynchronous invocation whose computation resolves is indistinguishable
/// from a synchronous invocation of the same outcome: the bridged outcome
/// imposes exactly the result-writing and result-code contract the
/// synchronous trampoline imposes.
pub proof fn lemma_async_success_like_sync(
    res: Result<Vec<WasmVal>, HostFuncError>,
    old_slots: Seq<RawWasmValue>,
    new_slots: Seq<RawWasmValue>,
    verdict: Option<RawResult>,
)
    ensures
        trampoline_post(spec_resolve(BridgeOutcome::Completed(res)), old_slots, new_slots, verdict)
            == trampoline_post(res, old_slots, new_slots, verdict),
{
}

/// A bridge failure always resolves to the reserved "async execution failed"
/// user-level error, and so to a user-category raw result carrying that
/// reserved code — never to a runtime-level one.
pub proof fn lemma_bridge_failure_reserved_code()
    ensures
        spec_resolve(BridgeOutcome::Failed) == Err::<Vec<WasmVal>, HostFuncError>(
            HostFuncError::User(ASYNC_EXEC_FAILED),
        ),
        spec_error_result(HostFuncError::User(ASYNC_EXEC_FAILED)) == RawResult::UserError(
            ASYNC_EXEC_FAILED,
        ),
        !(spec_resolve(BridgeOutcome::Failed) matches Err(HostFuncError::Runtime(_))),
{
}

/// Which trampoline a callable was wired to.
#[derive(Clone, Copy, Debug, PartialEq, Eq, Structural)]
pub enum TrampolineKind {
    Sync,
    Async,
}

/// A function type signature: the parameter and result kind lists the
/// runtime uses to validate calls before they reach the trampoline.
#[derive(Debug)]
pub struct FuncType {
    pub params: Vec<ValType>,
    pub results: Vec<ValType>,
}

/// The callable the runtime stores and invokes: the chosen trampoline, the
/// typed callback's address as the opaque key, the address of the
/// caller-owned state, and the execution cost the runtime meters.
///
/// The two addresses are capability tokens, not owners: the caller keeps
/// the state alive for as long as the callable may be invoked, and the key
/// must be restored only to the exact callback type it was erased from —
/// the one obligation the raw boundary cannot check.
#[derive(Debug)]
pub struct OpaqueCallable {
    pub ty: FuncType,
    pub kind: TrampolineKind,
    pub key_addr: usize,
    pub data_addr: usize,
    pub cost: u64,
}

/// Bind a typed synchronous callback to the synchronous trampoline: record
/// the signature, the callback's address as the opaque key, the state's
/// address, and the metering cost.
pub fn new_sync_function(ty: FuncType, key_addr: usize, data_addr: usize, cost: u64) -> (r:
    OpaqueCallable)
    ensures
        r.ty == ty,
        r.kind == TrampolineKind::Sync,
        r.key_addr == key_addr,
        r.data_addr == data_addr,
        r.cost == cost,
{
    OpaqueCallable { ty, kind: TrampolineKind::Sync, key_addr, data_addr, cost }
}

/// Bind a typed asynchronous callback to the asynchronous trampoline: as
/// [`new_sync_function`], but wired to the bridge-driving trampoline.
pub fn new_async_function(ty: FuncType, key_addr: usize, data_addr: usize, cost: u64) -> (r:
    OpaqueCallable)
    ensures
        r.ty == ty,
        r.kind == TrampolineKind::Async,
        r.key_addr == key_addr,
        r.data_addr == data_addr,
        r.cost == cost,
{
    OpaqueCallable { ty, kind: TrampolineKind::Async, key_addr, data_addr, cost }
}

} // verus!
