//! Validation of the module preamble: the four magic bytes and the format
//! version that must open every piece of contract code.
use vstd::prelude::*;

verus! {

/// The format version this engine accepts.
pub const SUPPORTED_VERSION: u8 = 1;

/// The four bytes `\0asm` that open every module.
pub open spec fn magic() -> Seq<u8> {
    seq![0x00u8, 0x61u8, 0x73u8, 0x6du8]
}

/// `data` is at least eight bytes long and opens with the magic.
pub open spec fn spec_has_preamble(data: Seq<u8>) -> bool {
    data.len() >= 8 && data.subrange(0, 4) == magic()
}

/// `data` is at least eight bytes long and bytes four to eight are the
/// little-endian 32-bit `version`.
pub open spec fn spec_has_version(data: Seq<u8>, version: u8) -> bool {
    data.len() >= 8 && data.subrange(4, 8) == seq![version, 0u8, 0u8, 0u8]
}

/// Both checks that run before any compilation.
pub open spec fn spec_valid_code(data: Seq<u8>) -> bool {
    spec_has_preamble(data) && spec_has_version(data, SUPPORTED_VERSION)
}

pub fn has_wasm_preamble(data: &[u8]) -> (r: bool)
    ensures
        r == spec_has_preamble(data@),
{
    if data.len() < 8 {
        return false;
    }
    let r = data[0] == 0x00u8 && data[1] == 0x61u8 && data[2] == 0x73u8 && data[3] == 0x6du8;
    assert(r == (data@.subrange(0, 4) =~= magic()));
    r
}

pub fn has_wasm_version(data: &[u8], version: u8) -> (r: bool)
    ensures
        r == spec_has_version(data@, version),
{
    if data.len() < 8 {
        return false;
    }
    let r = data[4] == version && data[5] == 0u8 && data[6] == 0u8 && data[7] == 0u8;
    assert(r == (data@.subrange(4, 8) =~= seq![version, 0u8, 0u8, 0u8]));
    r
}

/// Whether `data` may be handed to the compiler at all.
pub fn is_valid_code(data: &[u8]) -> (r: bool)
    ensures
        r == spec_valid_code(data@),
{
    has_wasm_preamble(data) && has_wasm_version(data, SUPPORTED_VERSION)
}

} // verus!
