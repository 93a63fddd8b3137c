//! Host-side execution engine for contract bytecode in the portable
//! stack-machine format: code validation, the guest memory marshaler, the
//! host capability bridge, the execution driver's decisions and the mapping
//! of a terminal state to a connector result.
use vstd::prelude::*;

pub mod code;
pub mod driver;
pub mod engine;
pub mod env;
pub mod laws;
pub mod memory;
pub mod result;

pub use code::{has_wasm_preamble, has_wasm_version};

verus! {

/// The virtual machine the node loads. It holds no state of its own: each
/// execution builds its own [`driver::Execution`] and
/// [`env::EnvironmentInterface`].
#[derive(Clone, Copy, Debug, PartialEq, Eq, Structural)]
pub struct BcosWasm {}

impl BcosWasm {
    pub fn init() -> (r: BcosWasm)
        ensures
            r == (BcosWasm {}),
    {
        BcosWasm {}
    }
}

} // verus!
