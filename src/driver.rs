//! The decisions of one execution, as a state machine. The caller performs
//! each [`Action`] with the execution engine (compile, instantiate, call a
//! guest export) and feeds back what happened as an [`Event`]; the machine
//! answers with the next action until it hands back the final result.
use vstd::prelude::*;

use wasmtime::{Engine, Module};

use crate::code::{is_valid_code, spec_valid_code};
use crate::engine::{compile_module, export_names};
use crate::env::CallKind;
use crate::memory::copy_bytes;
use crate::result::{
    ExecutionResult,
    ResultView,
    StatusCode,
    complete,
    completion_view,
    failure_view,
};

verus! {

/// The export every contract runs when called.
pub const CONTRACT_MAIN: &'static str = "main";

/// The export a contract runs when deployed.
pub const CONTRACT_DEPLOY: &'static str = "deploy";

/// The export that names the hash algorithm a contract was built for.
pub const CONTRACT_HASH_TYPE: &'static str = "hash_type";

/// The exported memory host capabilities read and write.
pub const CONTRACT_MEMORY: &'static str = "memory";

/// The import namespace of the host capabilities.
pub const HOST_MODULE: &'static str = "bcos";

/// The name of the imported mutable 64-bit gas global.
pub const HOST_GAS_GLOBAL: &'static str = "gas";

/// The value `hash_type` returns for the alternate hash algorithm.
pub const ALTERNATE_HASH: i32 = 1;

/// `exports` holds an export called `name`.
pub open spec fn has_export(exports: Seq<String>, name: Seq<char>) -> bool {
    exists|i: int| 0 <= i < exports.len() && #[trigger] exports[i]@ == name
}

/// A deployable module exports both `main` and `deploy`.
pub open spec fn spec_verify_contract(exports: Seq<String>) -> bool {
    has_export(exports, CONTRACT_MAIN@) && has_export(exports, CONTRACT_DEPLOY@)
}

fn find_export(exports: &Vec<String>, name: &str) -> (r: bool)
    ensures
        r == has_export(exports@, name@),
{
    let wanted: String = name.to_owned();
    let mut i: usize = 0;
    while i < exports.len()
        invariant
            wanted@ == name@,
            0 <= i <= exports@.len(),
            forall|j: int| 0 <= j < i ==> #[trigger] exports@[j]@ != name@,
        decreases exports@.len() - i,
    {
        if exports[i] == wanted {
            return true;
        }
        i = i + 1;
    }
    false
}

/// Whether a module with these export names may be deployed.
pub fn verify_contract(exports: &Vec<String>) -> (r: bool)
    ensures
        r == spec_verify_contract(exports@),
{
    find_export(exports, CONTRACT_MAIN) && find_export(exports, CONTRACT_DEPLOY)
}

/// The guest export that runs a contract's logic.
#[derive(Clone, Copy, Debug, PartialEq, Eq, Structural)]
pub enum EntryPoint {
    Main,
    Deploy,
}

/// The step an execution waits on.
#[derive(Clone, Copy, Debug, PartialEq, Eq, Structural)]
pub enum Phase {
    Compiling,
    Instantiating,
    CheckingHashType,
    Running,
    Done,
}

/// What the caller is asked to do next.
#[derive(Debug)]
pub enum Action {
    /// Compile the code.
    Compile,
    /// Link the host capabilities and the gas global, and instantiate.
    Instantiate,
    /// Call the guest's `hash_type` export.
    CallHashType,
    /// Call the given entry point.
    CallEntry(EntryPoint),
    /// Hand this result back to the node.
    Finish(ExecutionResult),
}

pub enum ActionView {
    Compile,
    Instantiate,
    CallHashType,
    CallEntry(EntryPoint),
    Finish(ResultView),
}

impl View for Action {
    type V = ActionView;

    open spec fn view(&self) -> ActionView {
        match self {
            Action::Compile => ActionView::Compile,
            Action::Instantiate => ActionView::Instantiate,
            Action::CallHashType => ActionView::CallHashType,
            Action::CallEntry(e) => ActionView::CallEntry(*e),
            Action::Finish(r) => ActionView::Finish(r@),
        }
    }
}

/// What happened when the caller performed the last action.
#[derive(Debug)]
pub enum Event {
    /// The code compiled; the module exports these names.
    Compiled(Vec<String>),
    /// The engine rejected the code.
    CompileFailed,
    /// Instantiation succeeded; whether the instance exports `memory`.
    Instantiated(bool),
    /// Linking or instantiation failed.
    InstantiateFailed,
    /// `hash_type` returned this value.
    HashType(i32),
    /// `hash_type` is missing or trapped.
    HashTypeFailed,
    /// The entry point is not exported with the expected signature.
    EntryMissing,
    /// The entry point trapped.
    EntryTrapped,
    /// The entry point returned; the bridge's terminal state and the gas
    /// counter read afterwards.
    EntryReturned { reverted: bool, revert_data: Vec<u8>, output: Vec<u8>, gas_left: i64 },
}

pub enum EventView {
    Compiled(Seq<String>),
    CompileFailed,
    Instantiated(bool),
    InstantiateFailed,
    HashType(i32),
    HashTypeFailed,
    EntryMissing,
    EntryTrapped,
    EntryReturned { reverted: bool, revert_data: Seq<u8>, output: Seq<u8>, gas_left: int },
}

impl View for Event {
    type V = EventView;

    open spec fn view(&self) -> EventView {
        match self {
            Event::Compiled(x) => EventView::Compiled(x@),
            Event::CompileFailed => EventView::CompileFailed,
            Event::Instantiated(m) => EventView::Instantiated(*m),
            Event::InstantiateFailed => EventView::InstantiateFailed,
            Event::HashType(v) => EventView::HashType(*v),
            Event::HashTypeFailed => EventView::HashTypeFailed,
            Event::EntryMissing => EventView::EntryMissing,
            Event::EntryTrapped => EventView::EntryTrapped,
            Event::EntryReturned { reverted, revert_data, output, gas_left } => EventView::EntryReturned {
                reverted: *reverted,
                revert_data: revert_data@,
                output: output@,
                gas_left: *gas_left as int,
            },
        }
    }
}

/// One execution in progress.
#[derive(Debug)]
pub struct Execution {
    pub kind: CallKind,
    pub host_alternate_hash: bool,
    pub code: Vec<u8>,
    pub phase: Phase,
}

pub struct ExecutionView {
    pub kind: CallKind,
    pub host_alternate_hash: bool,
    pub code: Seq<u8>,
    pub phase: Phase,
}

impl View for Execution {
    type V = ExecutionView;

    open spec fn view(&self) -> ExecutionView {
        ExecutionView {
            kind: self.kind,
            host_alternate_hash: self.host_alternate_hash,
            code: self.code@,
            phase: self.phase,
        }
    }
}

pub open spec fn finish_with(status: StatusCode) -> (Phase, ActionView) {
    (Phase::Done, ActionView::Finish(failure_view(status)))
}

/// The first step: the code checks, then the context, then compilation.
pub open spec fn start_step(code: Seq<u8>, has_context: bool) -> (Phase, ActionView) {
    if !spec_valid_code(code) {
        finish_with(StatusCode::ContractValidationFailure)
    } else if !has_context {
        finish_with(StatusCode::InternalError)
    } else {
        (Phase::Compiling, ActionView::Compile)
    }
}

/// The entry point an invocation of `kind` runs.
pub open spec fn entry_of(kind: CallKind) -> EntryPoint {
    match kind {
        CallKind::Create => EntryPoint::Deploy,
        CallKind::Call => EntryPoint::Main,
    }
}

/// The decision table: the next phase and action after `ev` in state `ex`.
/// An event that does not answer the pending action is a fault of the host
/// and ends the execution with an internal error.
pub open spec fn next_step(ex: ExecutionView, ev: EventView) -> (Phase, ActionView) {
    match (ex.phase, ev) {
        (Phase::Compiling, EventView::CompileFailed) => finish_with(
            StatusCode::ContractValidationFailure,
        ),
        (Phase::Compiling, EventView::Compiled(exports)) => if ex.kind == CallKind::Create
            && !spec_verify_contract(exports) {
            finish_with(StatusCode::ContractValidationFailure)
        } else {
            (Phase::Instantiating, ActionView::Instantiate)
        },
        (Phase::Instantiating, EventView::InstantiateFailed) => finish_with(
            StatusCode::ContractValidationFailure,
        ),
        (Phase::Instantiating, EventView::Instantiated(has_memory)) => if !has_memory {
            finish_with(StatusCode::ContractValidationFailure)
        } else if ex.kind == CallKind::Create {
            (Phase::CheckingHashType, ActionView::CallHashType)
        } else {
            (Phase::Running, ActionView::CallEntry(EntryPoint::Main))
        },
        (Phase::CheckingHashType, EventView::HashTypeFailed) => finish_with(StatusCode::WasmTrap),
        (Phase::CheckingHashType, EventView::HashType(v)) => if (v == ALTERNATE_HASH)
            != ex.host_alternate_hash {
            finish_with(StatusCode::ContractValidationFailure)
        } else {
            (Phase::Running, ActionView::CallEntry(EntryPoint::Deploy))
        },
        (Phase::Running, EventView::EntryMissing) => finish_with(
            StatusCode::ContractValidationFailure,
        ),
        (Phase::Running, EventView::EntryTrapped) => finish_with(StatusCode::WasmTrap),
        (
            Phase::Running,
            EventView::EntryReturned { reverted, revert_data, output, gas_left },
        ) => (
            Phase::Done,
            ActionView::Finish(
                completion_view(
                    ex.kind == CallKind::Create,
                    ex.code,
                    reverted,
                    revert_data,
                    output,
                    gas_left,
                ),
            ),
        ),
        _ => finish_with(StatusCode::InternalError),
    }
}

impl Execution {
    /// Begins an execution of `code`. `has_context` tells whether the node
    /// supplied an execution context; `host_alternate_hash` is the node's
    /// hash algorithm flag.
    pub fn start(code: &[u8], kind: CallKind, has_context: bool, host_alternate_hash: bool) -> (r: (
        Execution,
        Action,
    ))
        ensures
            (r.0.phase, r.1@) == start_step(code@, has_context),
            r.0.kind == kind,
            r.0.host_alternate_hash == host_alternate_hash,
            r.0.code@ == code@,
    {
        let ex = Execution { kind, host_alternate_hash, code: copy_bytes(code), phase: Phase::Done };
        if !is_valid_code(code) {
            (ex, Action::Finish(ExecutionResult::failure(StatusCode::ContractValidationFailure)))
        } else if !has_context {
            (ex, Action::Finish(ExecutionResult::failure(StatusCode::InternalError)))
        } else {
            (Execution { phase: Phase::Compiling, ..ex }, Action::Compile)
        }
    }

    /// Performs the pending compilation with `engine` and takes the step
    /// that follows from its outcome; hands back the module if it compiled.
    pub fn compile(&mut self, engine: &Engine) -> (r: (Action, Option<Module>))
        requires
            old(self).phase == Phase::Compiling,
        ensures
            r.1 is None ==> (final(self).phase, r.0@) == next_step(
                old(self)@,
                EventView::CompileFailed,
            ),
            r.1 is Some ==> exists|exports: Seq<String>|
                (final(self).phase, r.0@) == #[trigger] next_step(
                    old(self)@,
                    EventView::Compiled(exports),
                ),
            final(self).kind == old(self).kind,
            final(self).host_alternate_hash == old(self).host_alternate_hash,
            final(self).code == old(self).code,
    {
        match compile_module(engine, self.code.as_slice()) {
            Some(module) => {
                let exports = export_names(&module);
                let ghost names = exports@;
                let action = self.step(Event::Compiled(exports));
                assert((self.phase, action@) == next_step(old(self)@, EventView::Compiled(names)));
                (action, Some(module))
            },
            None => (self.step(Event::CompileFailed), None),
        }
    }

    fn end(&mut self, status: StatusCode) -> (r: Action)
        ensures
            (final(self).phase, r@) == finish_with(status),
            final(self).kind == old(self).kind,
            final(self).host_alternate_hash == old(self).host_alternate_hash,
            final(self).code == old(self).code,
    {
        self.phase = Phase::Done;
        Action::Finish(ExecutionResult::failure(status))
    }

    /// Takes what happened and answers with the next action.
    pub fn step(&mut self, event: Event) -> (r: Action)
        ensures
            (final(self).phase, r@) == next_step(old(self)@, event@),
            final(self).kind == old(self).kind,
            final(self).host_alternate_hash == old(self).host_alternate_hash,
            final(self).code == old(self).code,
    {
        let deploying = self.kind == CallKind::Create;
        match (self.phase, event) {
            (Phase::Compiling, Event::CompileFailed) => self.end(
                StatusCode::ContractValidationFailure,
            ),
            (Phase::Compiling, Event::Compiled(exports)) => {
                if deploying && !verify_contract(&exports) {
                    self.end(StatusCode::ContractValidationFailure)
                } else {
                    self.phase = Phase::Instantiating;
                    Action::Instantiate
                }
            },
            (Phase::Instantiating, Event::InstantiateFailed) => self.end(
                StatusCode::ContractValidationFailure,
            ),
            (Phase::Instantiating, Event::Instantiated(has_memory)) => {
                if !has_memory {
                    self.end(StatusCode::ContractValidationFailure)
                } else if deploying {
                    self.phase = Phase::CheckingHashType;
                    Action::CallHashType
                } else {
                    self.phase = Phase::Running;
                    Action::CallEntry(EntryPoint::Main)
                }
            },
            (Phase::CheckingHashType, Event::HashTypeFailed) => self.end(StatusCode::WasmTrap),
            (Phase::CheckingHashType, Event::HashType(v)) => {
                if (v == ALTERNATE_HASH) != self.host_alternate_hash {
                    self.end(StatusCode::ContractValidationFailure)
                } else {
                    self.phase = Phase::Running;
                    Action::CallEntry(EntryPoint::Deploy)
                }
            },
            (Phase::Running, Event::EntryMissing) => self.end(
                StatusCode::ContractValidationFailure,
            ),
            (Phase::Running, Event::EntryTrapped) => self.end(StatusCode::WasmTrap),
            (Phase::Running, Event::EntryReturned { reverted, revert_data, output, gas_left }) => {
                self.phase = Phase::Done;
                Action::Finish(
                    complete(deploying, self.code.as_slice(), reverted, revert_data, output, gas_left),
                )
            },
            _ => self.end(StatusCode::InternalError),
        }
    }
}

} // verus!
