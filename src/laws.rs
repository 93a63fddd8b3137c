//! Properties that relate the code checks, the host capabilities and the
//! driver's decisions to the final result of an execution.
use vstd::prelude::*;

use crate::code::{SUPPORTED_VERSION, magic, spec_has_preamble};
use crate::driver::{
    ALTERNATE_HASH,
    ActionView,
    EventView,
    ExecutionView,
    Phase,
    finish_with,
    next_step,
    start_step,
};
use crate::env::{CallKind, EnvState, finish_state, returned_event, revert_state};
use crate::memory::in_bounds;
use crate::result::{StatusCode, failure_view, revert_view, success_view};

verus! {

/// Code that does not open with the four magic bytes is rejected as a
/// validation failure with no gas and no output, before any compilation,
/// whether or not a context was supplied.
pub proof fn lemma_bad_magic_rejected(code: Seq<u8>, has_context: bool)
    requires
        !(code.len() >= 4 && code.subrange(0, 4) == magic()),
    ensures
        start_step(code, has_context) == finish_with(StatusCode::ContractValidationFailure),
        finish_with(StatusCode::ContractValidationFailure).1 == ActionView::Finish(
            failure_view(StatusCode::ContractValidationFailure),
        ),
        failure_view(StatusCode::ContractValidationFailure).gas_left == 0,
        failure_view(StatusCode::ContractValidationFailure).output is None,
{
    if code.len() >= 8 {
        assert(code.subrange(0, 4) =~= code.subrange(0, 8).subrange(0, 4));
    }
}

/// Code with a valid preamble but a version other than the supported one
/// is rejected as a validation failure.
pub proof fn lemma_bad_version_rejected(code: Seq<u8>, has_context: bool)
    requires
        spec_has_preamble(code),
        code[4] != SUPPORTED_VERSION,
    ensures
        start_step(code, has_context) == finish_with(StatusCode::ContractValidationFailure),
{
    assert(code.subrange(4, 8)[0] == code[4]);
}

/// A call whose module does not export `main` ends as a validation failure
/// when the entry point is looked up.
pub proof fn lemma_call_without_main(ex: ExecutionView)
    requires
        ex.kind == CallKind::Call,
        ex.phase == Phase::Running,
    ensures
        next_step(ex, EventView::EntryMissing) == finish_with(StatusCode::ContractValidationFailure),
{
}

/// A deployment whose `hash_type` disagrees with the node's hash algorithm
/// ends as a validation failure: `deploy` is never run.
pub proof fn lemma_hash_mismatch_rejected(ex: ExecutionView, value: i32)
    requires
        ex.kind == CallKind::Create,
        ex.phase == Phase::CheckingHashType,
        (value == ALTERNATE_HASH) != ex.host_alternate_hash,
    ensures
        next_step(ex, EventView::HashType(value)) == finish_with(
            StatusCode::ContractValidationFailure,
        ),
{
}

/// A call that stored `mem[offset .. offset + size]` with `finish` and then
/// returned succeeds with exactly those bytes and the gas counter's value.
pub proof fn lemma_finish_then_return(
    ex: ExecutionView,
    env: EnvState,
    mem: Seq<u8>,
    offset: u32,
    size: u32,
    gas_left: int,
)
    requires
        ex.kind == CallKind::Call,
        ex.phase == Phase::Running,
        !env.reverted,
        in_bounds(mem.len(), offset, size as nat),
    ensures
        next_step(
            ex,
            returned_event(finish_state(env, mem.subrange(offset as int, offset + size)), gas_left),
        ) == (Phase::Done, ActionView::Finish(
            success_view(gas_left, mem.subrange(offset as int, offset + size)),
        )),
{
}

/// An execution that called `revert` and then returned ends as a revert
/// with the given bytes and no gas left, whatever the gas counter holds.
pub proof fn lemma_revert_then_return(
    ex: ExecutionView,
    env: EnvState,
    data: Seq<u8>,
    gas_left: int,
)
    requires
        ex.phase == Phase::Running,
    ensures
        next_step(ex, returned_event(revert_state(env, data), gas_left)) == (
            Phase::Done,
            ActionView::Finish(revert_view(data)),
        ),
        revert_view(data).gas_left == 0,
{
}

/// A trap during the entry point, whether a host capability refused a
/// memory range, guest code ran out of gas or a nested call failed, ends
/// the execution with a trap, no gas left and no output.
pub proof fn lemma_trap_is_fatal(ex: ExecutionView)
    requires
        ex.phase == Phase::Running,
    ensures
        next_step(ex, EventView::EntryTrapped) == finish_with(StatusCode::WasmTrap),
        failure_view(StatusCode::WasmTrap).gas_left == 0,
        failure_view(StatusCode::WasmTrap).output is None,
{
}

/// A deployment that returns without reverting outputs the submitted code,
/// whatever `finish` stored.
pub proof fn lemma_deploy_returns_code(ex: ExecutionView, env: EnvState, gas_left: int)
    requires
        ex.kind == CallKind::Create,
        ex.phase == Phase::Running,
        !env.reverted,
    ensures
        next_step(ex, returned_event(env, gas_left)) == (Phase::Done, ActionView::Finish(
            success_view(gas_left, ex.code),
        )),
{
}

} // verus!
