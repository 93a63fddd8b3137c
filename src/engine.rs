//! The calls into the bytecode execution engine that only compute: compiling
//! code into a module and listing what the module exports.
use vstd::prelude::*;

use wasmtime::{Engine, Module};

verus! {

#[verifier::external_type_specification]
#[verifier::external_body]
pub struct ExEngine(wasmtime::Engine);

#[verifier::external_type_specification]
#[verifier::external_body]
pub struct ExModule(wasmtime::Module);

/// Relies on wasmtime::Module::from_binary to validate and compile `code`
/// with `engine`. Whether it succeeds is the engine's decision (its
/// settings and its compilation cache take part), so nothing is promised of
/// the outcome.
#[verifier::external_body]
pub(crate) fn compile_module(engine: &Engine, code: &[u8]) -> (r: Option<Module>) {
    Module::from_binary(engine, code).ok()
}

/// Relies on wasmtime::Module::exports and ExportType::name for the names
/// of the module's exports.
#[verifier::external_body]
pub(crate) fn export_names(module: &Module) -> (r: Vec<String>) {
    module.exports().map(|e| e.name().to_string()).collect()
}

} // verus!
