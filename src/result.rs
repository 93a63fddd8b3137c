//! The connector result of one execution and the mapping from the guest's
//! terminal state to it.
use vstd::prelude::*;

use crate::memory::copy_bytes;

verus! {

/// The status of a finished execution.
#[derive(Clone, Copy, Debug, PartialEq, Eq, Structural)]
pub enum StatusCode {
    Success,
    Revert,
    ContractValidationFailure,
    WasmTrap,
    InternalError,
}

/// The outcome handed back to the node: a status, the gas left and the
/// output bytes, if any.
#[derive(Debug)]
pub struct ExecutionResult {
    pub status: StatusCode,
    pub gas_left: i64,
    pub output: Option<Vec<u8>>,
}

/// The mathematical value of an [`ExecutionResult`].
pub struct ResultView {
    pub status: StatusCode,
    pub gas_left: int,
    pub output: Option<Seq<u8>>,
}

pub open spec fn opt_view(o: Option<Vec<u8>>) -> Option<Seq<u8>> {
    match o {
        Some(v) => Some(v@),
        None => None,
    }
}

impl View for ExecutionResult {
    type V = ResultView;

    open spec fn view(&self) -> ResultView {
        ResultView { status: self.status, gas_left: self.gas_left as int, output: opt_view(self.output) }
    }
}

/// A failure of the given status: no gas left, no output.
pub open spec fn failure_view(status: StatusCode) -> ResultView {
    ResultView { status, gas_left: 0, output: None }
}

pub open spec fn success_view(gas_left: int, output: Seq<u8>) -> ResultView {
    ResultView { status: StatusCode::Success, gas_left, output: Some(output) }
}

/// A revert reports no gas left and carries the guest's bytes.
pub open spec fn revert_view(output: Seq<u8>) -> ResultView {
    ResultView { status: StatusCode::Revert, gas_left: 0, output: Some(output) }
}

/// The result after the selected entry point returned without a trap.
/// A revert wins; otherwise a deployment returns the submitted code and a
/// call returns what `finish` stored.
pub open spec fn completion_view(
    deploying: bool,
    code: Seq<u8>,
    reverted: bool,
    revert_data: Seq<u8>,
    output: Seq<u8>,
    gas_left: int,
) -> ResultView {
    if reverted {
        revert_view(revert_data)
    } else if deploying {
        success_view(gas_left, code)
    } else {
        success_view(gas_left, output)
    }
}

impl ExecutionResult {
    pub fn failure(status: StatusCode) -> (r: ExecutionResult)
        ensures
            r@ == failure_view(status),
    {
        ExecutionResult { status, gas_left: 0, output: None }
    }

    pub fn success(gas_left: i64, output: Vec<u8>) -> (r: ExecutionResult)
        ensures
            r@ == success_view(gas_left as int, output@),
    {
        ExecutionResult { status: StatusCode::Success, gas_left, output: Some(output) }
    }

    pub fn reverted(output: Vec<u8>) -> (r: ExecutionResult)
        ensures
            r@ == revert_view(output@),
    {
        ExecutionResult { status: StatusCode::Revert, gas_left: 0, output: Some(output) }
    }
}

/// Maps the state left after a clean return of the entry point to the
/// connector result.
pub fn complete(
    deploying: bool,
    code: &[u8],
    reverted: bool,
    revert_data: Vec<u8>,
    output: Vec<u8>,
    gas_left: i64,
) -> (r: ExecutionResult)
    ensures
        r@ == completion_view(deploying, code@, reverted, revert_data@, output@, gas_left as int),
{
    if reverted {
        ExecutionResult::reverted(revert_data)
    } else if deploying {
        ExecutionResult::success(gas_left, copy_bytes(code))
    } else {
        ExecutionResult::success(gas_left, output)
    }
}

} // verus!
