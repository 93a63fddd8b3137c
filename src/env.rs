//! The execution-scoped bridge between guest code and the host: the message
//! being executed, the output and revert buffers, and the return data of the
//! latest nested call. Each capability that touches guest memory checks the
//! range first and fails with a [`HostError`] otherwise.
use vstd::prelude::*;

use crate::driver::{Event, EventView};
use crate::memory::{HostError, copy_bytes, in_bounds, read_range, write_range, written};

verus! {

/// The largest number of bytes `get_storage` copies into guest memory.
pub const MAX_STORAGE_VALUE: u32 = 16384;

/// The size of one log topic word.
pub const TOPIC_SIZE: u32 = 32;

/// Whether an invocation deploys a new contract or calls an existing one.
#[derive(Clone, Copy, Debug, PartialEq, Eq, Structural)]
pub enum CallKind {
    Call,
    Create,
}

/// The fields of the message that the engine reads.
#[derive(Debug)]
pub struct Message {
    pub kind: CallKind,
    pub sender: Vec<u8>,
    pub destination: Vec<u8>,
    pub origin: Vec<u8>,
    pub input: Vec<u8>,
    pub gas: i64,
}

impl Message {
    /// Every byte string of the message has a length that fits a guest word.
    pub open spec fn wf(&self) -> bool {
        &&& self.sender@.len() <= u32::MAX
        &&& self.destination@.len() <= u32::MAX
        &&& self.origin@.len() <= u32::MAX
        &&& self.input@.len() <= u32::MAX
    }
}

/// A storage write that guest code asked for.
#[derive(Debug)]
pub struct StorageEntry {
    pub key: Vec<u8>,
    pub value: Vec<u8>,
}

/// An event that guest code asked to log.
#[derive(Debug)]
pub struct LogRecord {
    pub data: Vec<u8>,
    pub topics: Vec<Vec<u8>>,
}

/// A nested call that guest code asked for.
#[derive(Debug)]
pub struct CallRequest {
    pub address: Vec<u8>,
    pub data: Vec<u8>,
}

/// Why guest execution stops with a trap.
#[derive(Clone, Copy, Debug, PartialEq, Eq, Structural)]
pub enum Trap {
    /// A host capability failed.
    Host(HostError),
    /// A nested call ended with a non-zero status.
    CallFailed,
    /// Guest metering ran out of gas.
    OutOfGas,
}

/// The host-side state of one execution.
#[derive(Debug)]
pub struct EnvironmentInterface {
    pub message: Message,
    pub output: Vec<u8>,
    pub finished: bool,
    pub revert_data: Vec<u8>,
    pub reverted: bool,
    pub return_data: Vec<u8>,
}

/// The mathematical value of the bridge's mutable state.
pub struct EnvState {
    pub output: Seq<u8>,
    pub finished: bool,
    pub revert_data: Seq<u8>,
    pub reverted: bool,
    pub return_data: Seq<u8>,
}

impl View for EnvironmentInterface {
    type V = EnvState;

    open spec fn view(&self) -> EnvState {
        EnvState {
            output: self.output@,
            finished: self.finished,
            revert_data: self.revert_data@,
            reverted: self.reverted,
            return_data: self.return_data@,
        }
    }
}

/// The state after `finish` stored `data`.
pub open spec fn finish_state(s: EnvState, data: Seq<u8>) -> EnvState {
    EnvState { output: data, finished: true, ..s }
}

/// The state after `revert` stored `data`.
pub open spec fn revert_state(s: EnvState, data: Seq<u8>) -> EnvState {
    EnvState { revert_data: data, reverted: true, ..s }
}

/// The event that reports a clean return of the entry point in state `s`
/// with `gas_left` on the gas counter.
pub open spec fn returned_event(s: EnvState, gas_left: int) -> EventView {
    EventView::EntryReturned {
        reverted: s.reverted,
        revert_data: s.revert_data,
        output: s.output,
        gas_left,
    }
}

/// The `count` topic words at `topics`, each `TOPIC_SIZE` bytes of memory.
pub open spec fn topics_of(mem: Seq<u8>, topics: Seq<u32>, count: int) -> Seq<Seq<u8>> {
    Seq::new(
        count as nat,
        |i: int| mem.subrange(topics[i] as int, topics[i] + TOPIC_SIZE),
    )
}

/// The first `count` topic words all lie within a memory of `len` bytes.
pub open spec fn topics_in_bounds(len: nat, topics: Seq<u32>, count: int) -> bool {
    forall|i: int| 0 <= i < count ==> #[trigger] in_bounds(len, topics[i], TOPIC_SIZE as nat)
}

/// The number of bytes `get_storage` writes for a value of `len` bytes.
pub open spec fn capped_len(len: nat) -> nat {
    if len <= MAX_STORAGE_VALUE {
        len
    } else {
        MAX_STORAGE_VALUE as nat
    }
}

impl EnvironmentInterface {
    pub open spec fn wf(&self) -> bool {
        self.message.wf() && self.return_data@.len() <= u32::MAX
    }

    /// The bridge at the start of an execution: no output, no revert, no
    /// return data.
    pub fn new(message: Message) -> (r: EnvironmentInterface)
        requires
            message.wf(),
        ensures
            r.wf(),
            r.message == message,
            r.output@ == Seq::<u8>::empty(),
            !r.finished,
            r.revert_data@ == Seq::<u8>::empty(),
            !r.reverted,
            r.return_data@ == Seq::<u8>::empty(),
    {
        EnvironmentInterface {
            message,
            output: Vec::new(),
            finished: false,
            revert_data: Vec::new(),
            reverted: false,
            return_data: Vec::new(),
        }
    }

    /// Reports a clean return of the entry point, with `gas_left` read
    /// from the gas counter.
    pub fn returned(&self, gas_left: i64) -> (r: Event)
        ensures
            r@ == returned_event(self@, gas_left as int),
    {
        Event::EntryReturned {
            reverted: self.reverted,
            revert_data: copy_bytes(self.revert_data.as_slice()),
            output: copy_bytes(self.output.as_slice()),
            gas_left,
        }
    }

    /// Stores `size` bytes at `offset` as the output.
    pub fn finish(&mut self, mem: &[u8], offset: u32, size: u32) -> (r: Result<(), HostError>)
        ensures
            r is Ok <==> in_bounds(mem@.len(), offset, size as nat),
            r is Ok ==> final(self)@ == finish_state(
                old(self)@,
                mem@.subrange(offset as int, offset + size),
            ),
            r is Ok ==> final(self).message == old(self).message,
            r is Err ==> r == Err::<(), HostError>(HostError::OutOfBounds) && *final(self) == *old(self),
    {
        match read_range(mem, offset, size) {
            Ok(bytes) => {
                self.output = bytes;
                self.finished = true;
                Ok(())
            },
            Err(e) => Err(e),
        }
    }

    /// Stores `size` bytes at `offset` as the revert data and marks the
    /// execution reverted.
    pub fn revert(&mut self, mem: &[u8], offset: u32, size: u32) -> (r: Result<(), HostError>)
        ensures
            r is Ok <==> in_bounds(mem@.len(), offset, size as nat),
            r is Ok ==> final(self)@ == revert_state(
                old(self)@,
                mem@.subrange(offset as int, offset + size),
            ),
            r is Ok ==> final(self).message == old(self).message,
            r is Err ==> r == Err::<(), HostError>(HostError::OutOfBounds) && *final(self) == *old(self),
    {
        match read_range(mem, offset, size) {
            Ok(bytes) => {
                self.revert_data = bytes;
                self.reverted = true;
                Ok(())
            },
            Err(e) => Err(e),
        }
    }
    /// Writes `data` at `offset` and returns its length.
    fn write_bytes(mem: &mut [u8], offset: u32, data: &Vec<u8>) -> (r: Result<u32, HostError>)
        requires
            data@.len() <= u32::MAX,
        ensures
            r is Ok <==> in_bounds(old(mem)@.len(), offset, data@.len()),
            r is Ok ==> r->Ok_0 == data@.len() && final(mem)@ == written(
                old(mem)@,
                offset as int,
                data@,
            ),
            r is Err ==> r == Err::<u32, HostError>(HostError::OutOfBounds) && final(mem)@ == old(mem)@,
    {
        match write_range(mem, offset, data.as_slice()) {
            Ok(()) => Ok(data.len() as u32),
            Err(e) => Err(e),
        }
    }

    /// Writes the destination address at `offset`; returns its length.
    pub fn get_address(&self, mem: &mut [u8], offset: u32) -> (r: Result<u32, HostError>)
        requires
            self.wf(),
        ensures
            r is Ok <==> in_bounds(old(mem)@.len(), offset, self.message.destination@.len()),
            r is Ok ==> r->Ok_0 == self.message.destination@.len() && final(mem)@ == written(
                old(mem)@,
                offset as int,
                self.message.destination@,
            ),
            r is Err ==> r == Err::<u32, HostError>(HostError::OutOfBounds) && final(mem)@ == old(mem)@,
    {
        Self::write_bytes(mem, offset, &self.message.destination)
    }

    /// Writes the sender address at `offset`; returns its length.
    pub fn get_caller(&self, mem: &mut [u8], offset: u32) -> (r: Result<u32, HostError>)
        requires
            self.wf(),
        ensures
            r is Ok <==> in_bounds(old(mem)@.len(), offset, self.message.sender@.len()),
            r is Ok ==> r->Ok_0 == self.message.sender@.len() && final(mem)@ == written(
                old(mem)@,
                offset as int,
                self.message.sender@,
            ),
            r is Err ==> r == Err::<u32, HostError>(HostError::OutOfBounds) && final(mem)@ == old(mem)@,
    {
        Self::write_bytes(mem, offset, &self.message.sender)
    }

    /// Writes the transaction origin address at `offset`; returns its length.
    pub fn get_tx_origin(&self, mem: &mut [u8], offset: u32) -> (r: Result<u32, HostError>)
        requires
            self.wf(),
        ensures
            r is Ok <==> in_bounds(old(mem)@.len(), offset, self.message.origin@.len()),
            r is Ok ==> r->Ok_0 == self.message.origin@.len() && final(mem)@ == written(
                old(mem)@,
                offset as int,
                self.message.origin@,
            ),
            r is Err ==> r == Err::<u32, HostError>(HostError::OutOfBounds) && final(mem)@ == old(mem)@,
    {
        Self::write_bytes(mem, offset, &self.message.origin)
    }

    /// The length of the message input.
    pub fn get_call_data_size(&self) -> (r: u32)
        requires
            self.wf(),
        ensures
            r == self.message.input@.len(),
    {
        self.message.input.len() as u32
    }

    /// Writes the whole message input at `offset`.
    pub fn get_call_data(&self, mem: &mut [u8], offset: u32) -> (r: Result<(), HostError>)
        requires
            self.wf(),
        ensures
            r is Ok <==> in_bounds(old(mem)@.len(), offset, self.message.input@.len()),
            r is Ok ==> final(mem)@ == written(old(mem)@, offset as int, self.message.input@),
            r is Err ==> r == Err::<(), HostError>(HostError::OutOfBounds) && final(mem)@ == old(mem)@,
    {
        write_range(mem, offset, self.message.input.as_slice())
    }

    /// The length of the latest nested call's return data.
    pub fn get_return_data_size(&self) -> (r: u32)
        requires
            self.wf(),
        ensures
            r == self.return_data@.len(),
    {
        self.return_data.len() as u32
    }

    /// Writes the latest nested call's return data at `offset`.
    pub fn get_return_data(&self, mem: &mut [u8], offset: u32) -> (r: Result<(), HostError>)
        ensures
            r is Ok <==> in_bounds(old(mem)@.len(), offset, self.return_data@.len()),
            r is Ok ==> final(mem)@ == written(old(mem)@, offset as int, self.return_data@),
            r is Err ==> r == Err::<(), HostError>(HostError::OutOfBounds) && final(mem)@ == old(mem)@,
    {
        write_range(mem, offset, self.return_data.as_slice())
    }

    /// Reads the key and the value of a storage write from guest memory.
    pub fn set_storage(
        &self,
        mem: &[u8],
        key_offset: u32,
        key_size: u32,
        value_offset: u32,
        value_size: u32,
    ) -> (r: Result<StorageEntry, HostError>)
        ensures
            r is Ok <==> in_bounds(mem@.len(), key_offset, key_size as nat) && in_bounds(
                mem@.len(),
                value_offset,
                value_size as nat,
            ),
            r is Ok ==> r->Ok_0.key@ == mem@.subrange(key_offset as int, key_offset + key_size)
                && r->Ok_0.value@ == mem@.subrange(value_offset as int, value_offset + value_size),
            r is Err ==> r->Err_0 == HostError::OutOfBounds,
    {
        let key = read_range(mem, key_offset, key_size)?;
        let value = read_range(mem, value_offset, value_size)?;
        Ok(StorageEntry { key, value })
    }

    /// Reads the key of a storage lookup from guest memory.
    pub fn storage_key(&self, mem: &[u8], key_offset: u32, key_size: u32) -> (r: Result<
        Vec<u8>,
        HostError,
    >)
        ensures
            in_bounds(mem@.len(), key_offset, key_size as nat) ==> r is Ok && r->Ok_0@ == mem@.subrange(
                key_offset as int,
                key_offset + key_size,
            ),
            !in_bounds(mem@.len(), key_offset, key_size as nat) ==> r == Err::<Vec<u8>, HostError>(
                HostError::OutOfBounds,
            ),
    {
        read_range(mem, key_offset, key_size)
    }

    /// Writes at most `MAX_STORAGE_VALUE` bytes of a looked-up `value` at
    /// `value_offset`; returns the number of bytes written.
    pub fn get_storage(&self, mem: &mut [u8], value_offset: u32, value: &[u8]) -> (r: Result<
        u32,
        HostError,
    >)
        ensures
            r is Ok <==> in_bounds(old(mem)@.len(), value_offset, capped_len(value@.len())),
            r is Ok ==> r->Ok_0 <= MAX_STORAGE_VALUE,
            r is Ok ==> r->Ok_0 == capped_len(value@.len()) && final(mem)@ == written(
                old(mem)@,
                value_offset as int,
                value@.subrange(0, capped_len(value@.len()) as int),
            ),
            r is Err ==> r == Err::<u32, HostError>(HostError::OutOfBounds) && final(mem)@ == old(mem)@,
    {
        let len: usize = if value.len() <= MAX_STORAGE_VALUE as usize {
            value.len()
        } else {
            MAX_STORAGE_VALUE as usize
        };
        let mut part: Vec<u8> = Vec::with_capacity(len);
        let mut i: usize = 0;
        while i < len
            invariant
                len <= value@.len(),
                0 <= i <= len,
                part@ == value@.subrange(0, i as int),
            decreases len - i,
        {
            part.push(value[i]);
            i = i + 1;
        }
        match write_range(mem, value_offset, part.as_slice()) {
            Ok(()) => Ok(len as u32),
            Err(e) => Err(e),
        }
    }

    /// Reads the address whose code size guest code asks for.
    pub fn code_size_address(&self, mem: &[u8], address_offset: u32, size: u32) -> (r: Result<
        Vec<u8>,
        HostError,
    >)
        ensures
            in_bounds(mem@.len(), address_offset, size as nat) ==> r is Ok && r->Ok_0@ == mem@.subrange(
                address_offset as int,
                address_offset + size,
            ),
            !in_bounds(mem@.len(), address_offset, size as nat) ==> r == Err::<Vec<u8>, HostError>(
                HostError::OutOfBounds,
            ),
    {
        read_range(mem, address_offset, size)
    }

    /// Reads an event's data and its `number_of_topics` topic words from
    /// guest memory.
    pub fn log(
        &self,
        mem: &[u8],
        data_offset: u32,
        data_size: u32,
        number_of_topics: i32,
        topic1: u32,
        topic2: u32,
        topic3: u32,
        topic4: u32,
    ) -> (r: Result<LogRecord, HostError>)
        ensures
            !(0 <= number_of_topics <= 4) ==> r == Err::<LogRecord, HostError>(
                HostError::InvalidTopicCount,
            ),
            0 <= number_of_topics <= 4 ==> (r is Ok <==> in_bounds(
                mem@.len(),
                data_offset,
                data_size as nat,
            ) && topics_in_bounds(
                mem@.len(),
                seq![topic1, topic2, topic3, topic4],
                number_of_topics as int,
            )),
            0 <= number_of_topics <= 4 && r is Err ==> r->Err_0 == HostError::OutOfBounds,
            r is Ok ==> r->Ok_0.data@ == mem@.subrange(data_offset as int, data_offset + data_size)
                && r->Ok_0.topics@.map_values(|v: Vec<u8>| v@) == topics_of(
                mem@,
                seq![topic1, topic2, topic3, topic4],
                number_of_topics as int,
            ),
    {
        if number_of_topics < 0 || number_of_topics > 4 {
            return Err(HostError::InvalidTopicCount);
        }
        let data = read_range(mem, data_offset, data_size)?;
        let offsets: [u32; 4] = [topic1, topic2, topic3, topic4];
        let ghost all = seq![topic1, topic2, topic3, topic4];
        assert(offsets@ =~= all);
        let count: usize = number_of_topics as usize;
        let mut topics: Vec<Vec<u8>> = Vec::new();
        let mut i: usize = 0;
        while i < count
            invariant
                count == number_of_topics,
                count <= 4,
                offsets@ == all,
                all == seq![topic1, topic2, topic3, topic4],
                0 <= i <= count,
                topics@.map_values(|v: Vec<u8>| v@) =~= topics_of(mem@, all, i as int),
                forall|j: int| 0 <= j < i ==> #[trigger] in_bounds(mem@.len(), all[j], TOPIC_SIZE as nat),
            decreases count - i,
        {
            let off: u32 = offsets[i];
            assert(off == all[i as int]);
            match read_range(mem, off, TOPIC_SIZE) {
                Ok(word) => {
                    let ghost before = topics@.map_values(|v: Vec<u8>| v@);
                    topics.push(word);
                    assert(topics@.map_values(|v: Vec<u8>| v@) =~= before.push(word@));
                },
                Err(e) => {
                    assert(!in_bounds(mem@.len(), all[i as int], TOPIC_SIZE as nat));
                    assert(!topics_in_bounds(mem@.len(), all, number_of_topics as int));
                    return Err(e);
                },
            }
            i = i + 1;
            assert(topics@.map_values(|v: Vec<u8>| v@) =~= topics_of(mem@, all, i as int));
        }
        Ok(LogRecord { data, topics })
    }

    /// Reads the target address and input of a nested call from guest memory.
    pub fn call(
        &self,
        mem: &[u8],
        address_offset: u32,
        address_size: u32,
        data_offset: u32,
        data_size: u32,
    ) -> (r: Result<CallRequest, HostError>)
        ensures
            r is Ok <==> in_bounds(mem@.len(), address_offset, address_size as nat) && in_bounds(
                mem@.len(),
                data_offset,
                data_size as nat,
            ),
            r is Ok ==> r->Ok_0.address@ == mem@.subrange(
                address_offset as int,
                address_offset + address_size,
            ) && r->Ok_0.data@ == mem@.subrange(data_offset as int, data_offset + data_size),
            r is Err ==> r->Err_0 == HostError::OutOfBounds,
    {
        let address = read_range(mem, address_offset, address_size)?;
        let data = read_range(mem, data_offset, data_size)?;
        Ok(CallRequest { address, data })
    }

    /// Keeps the return data of a finished nested call; a non-zero status
    /// aborts the calling guest.
    pub fn call_finished(&mut self, status: i32, return_data: Vec<u8>) -> (r: Result<(), Trap>)
        requires
            old(self).wf(),
            return_data@.len() <= u32::MAX,
        ensures
            final(self).wf(),
            final(self)@ == (EnvState { return_data: return_data@, ..old(self)@ }),
            final(self).message == old(self).message,
            status == 0 ==> r is Ok,
            status != 0 ==> r == Err::<(), Trap>(Trap::CallFailed),
    {
        self.return_data = return_data;
        if status == 0 {
            Ok(())
        } else {
            Err(Trap::CallFailed)
        }
    }
}

/// What guest code's `outOfGas` does: it always traps.
pub fn out_of_gas() -> (r: Result<(), Trap>)
    ensures
        r == Err::<(), Trap>(Trap::OutOfGas),
{
    Err(Trap::OutOfGas)
}

/// Turns a failed host capability into the trap the guest sees.
pub fn host_trap(e: HostError) -> (r: Trap)
    ensures
        r == Trap::Host(e),
{
    Trap::Host(e)
}

} // verus!
