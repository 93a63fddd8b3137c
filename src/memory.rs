//! Bounds-checked transfer of byte ranges between guest linear memory and
//! host buffers.
use vstd::prelude::*;

verus! {

/// Why a host capability could not complete; the bridge turns each into a
/// guest-visible trap.
#[derive(Clone, Copy, Debug, PartialEq, Eq, Structural)]
pub enum HostError {
    /// An offset and size that do not lie within guest memory.
    OutOfBounds,
    /// A topic count outside zero to four.
    InvalidTopicCount,
}

/// `offset .. offset + size` lies within a memory of `len` bytes.
pub open spec fn in_bounds(len: nat, offset: u32, size: nat) -> bool {
    offset as nat + size <= len
}

/// Copies `size` bytes at `offset` out of guest memory.
pub fn read_range(mem: &[u8], offset: u32, size: u32) -> (r: Result<Vec<u8>, HostError>)
    ensures
        in_bounds(mem@.len(), offset, size as nat) ==> r is Ok && r->Ok_0@ == mem@.subrange(
            offset as int,
            offset + size,
        ),
        !in_bounds(mem@.len(), offset, size as nat) ==> r == Err::<Vec<u8>, HostError>(
            HostError::OutOfBounds,
        ),
{
    let start: usize = offset as usize;
    if start > mem.len() || size as usize > mem.len() - start {
        return Err(HostError::OutOfBounds);
    }
    let end: usize = start + size as usize;
    let mut out: Vec<u8> = Vec::with_capacity(size as usize);
    let mut i: usize = start;
    while i < end
        invariant
            start <= i <= end <= mem@.len(),
            out@ == mem@.subrange(start as int, i as int),
        decreases end - i,
    {
        out.push(mem[i]);
        i = i + 1;
    }
    Ok(out)
}

/// An owned copy of `data`.
pub fn copy_bytes(data: &[u8]) -> (r: Vec<u8>)
    ensures
        r@ == data@,
{
    let mut out: Vec<u8> = Vec::with_capacity(data.len());
    let mut i: usize = 0;
    while i < data.len()
        invariant
            0 <= i <= data@.len(),
            out@ == data@.subrange(0, i as int),
        decreases data@.len() - i,
    {
        out.push(data[i]);
        i = i + 1;
    }
    assert(out@ =~= data@);
    out
}

/// Memory after writing `data` at `offset`.
pub open spec fn written(mem: Seq<u8>, offset: int, data: Seq<u8>) -> Seq<u8> {
    mem.subrange(0, offset) + data + mem.subrange(offset + data.len(), mem.len() as int)
}

/// Copies `data` into guest memory at `offset`.
pub fn write_range(mem: &mut [u8], offset: u32, data: &[u8]) -> (r: Result<(), HostError>)
    ensures
        r is Ok <==> in_bounds(old(mem)@.len(), offset, data@.len()),
        r is Ok ==> final(mem)@ == written(old(mem)@, offset as int, data@),
        r is Err ==> r == Err::<(), HostError>(HostError::OutOfBounds) && final(mem)@ == old(
            mem,
        )@,
{
    let start: usize = offset as usize;
    if start > mem.len() || data.len() > mem.len() - start {
        return Err(HostError::OutOfBounds);
    }
    let n: usize = mem.len();
    let mut i: usize = 0;
    while i < data.len()
        invariant
            n == mem@.len(),
            start + data@.len() <= mem@.len(),
            mem@.len() == old(mem)@.len(),
            0 <= i <= data@.len(),
            forall|j: int| 0 <= j < start ==> mem@[j] == old(mem)@[j],
            forall|j: int| 0 <= j < i ==> mem@[start + j] == data@[j],
            forall|j: int| start + i <= j < mem@.len() ==> mem@[j] == old(mem)@[j],
        decreases data@.len() - i,
    {
        mem[start + i] = data[i];
        i = i + 1;
    }
    assert(mem@ =~= written(old(mem)@, offset as int, data@));
    Ok(())
}

} // verus!
