//! The guest machine as the syscall handlers see it: thirty-two registers and
//! a flat byte memory, some pages of which are closed to writes.
//!
//! The machine itself is the interpreter core of `ckb_vm`. Nothing of it is
//! verified here. The handlers reach it only through the few functions of
//! this module, and what this module says of them is taken on trust from the
//! source of `ckb_vm`.

use ckb_vm::Error as VmError;
use ckb_vm::{CoreMachine, DefaultCoreMachine, Memory, Register, SparseMemory, WXorXMemory};
use vstd::bytes::{spec_u64_from_le_bytes, spec_u64_to_le_bytes};
use vstd::prelude::*;

verus! {

/// Number of general registers of the machine.
pub const REGISTER_COUNT: usize = 32;

/// Register numbers of the argument registers, as the RISC-V calling
/// convention names them.
pub const A0: usize = 10;

pub const A1: usize = 11;

pub const A2: usize = 12;

pub const A3: usize = 13;

pub const A4: usize = 14;

pub const A5: usize = 15;

pub const A7: usize = 17;

/// Bytes in one page of guest memory.
pub const PAGE_SIZE: u64 = 4096;

/// The most memory a guest can have.
pub const MAX_MEMORY: u64 = 0x40_0000;

/// A guest machine: `ckb_vm`'s interpreter core over its sparse memory with
/// write-xor-execute protection.
///
/// Verus is told nothing of what is inside: the type of the memory is bound
/// by a trait of `ckb_vm`, which Verus cannot be told of. What the handlers
/// need to know of a machine is named by `guest_registers`, `guest_memory`
/// and `guest_sealed`. The field is public so that a host can hand the core
/// to the machine's runner and take it back when a guest traps.
#[verifier::external_body]
pub struct Guest {
    pub core: DefaultCoreMachine<u64, WXorXMemory<SparseMemory<u64>>>,
}

/// The error type of `ckb_vm`. Nothing is said of its values: the library
/// carries them from the machine to the host.
#[verifier::external_type_specification]
#[verifier::external_body]
pub struct ExVmError(VmError);

/// The values of the machine's general registers, by register number.
pub uninterp spec fn guest_registers(machine: Guest) -> Seq<u64>;

/// The machine's memory, byte by byte from address zero. A page that the
/// machine has not yet touched holds zeros.
pub uninterp spec fn guest_memory(machine: Guest) -> Seq<u8>;

/// The numbers of the pages that are marked executable. The machine lets no
/// store reach them.
pub uninterp spec fn guest_sealed(machine: Guest) -> Set<int>;

/// What the handlers see of a machine.
pub struct GuestView {
    pub registers: Seq<u64>,
    pub memory: Seq<u8>,
    pub sealed: Set<int>,
}

impl View for Guest {
    type V = GuestView;

    open spec fn view(&self) -> GuestView {
        GuestView {
            registers: guest_registers(*self),
            memory: guest_memory(*self),
            sealed: guest_sealed(*self),
        }
    }
}

impl GuestView {
    /// `len` bytes from `addr` on lie inside the memory.
    pub open spec fn readable(self, addr: int, len: int) -> bool {
        0 <= addr && 0 <= len && addr + len <= self.memory.len()
    }

    /// `len` bytes from `addr` on lie inside the memory and on no sealed page.
    pub open spec fn writable(self, addr: int, len: int) -> bool {
        &&& self.readable(addr, len)
        &&& forall|page: int|
            addr / (PAGE_SIZE as int) <= page <= (addr + len - 1) / (PAGE_SIZE as int)
                ==> !self.sealed.contains(page)
    }

    /// A load of `len` bytes from `addr` on succeeds: there is nothing to
    /// load, or the bytes lie inside the memory.
    pub open spec fn loadable(self, addr: int, len: int) -> bool {
        len == 0 || self.readable(addr, len)
    }

    /// The `len` bytes from `addr` on.
    pub open spec fn bytes_at(self, addr: int, len: int) -> Seq<u8> {
        if len == 0 {
            Seq::empty()
        } else {
            self.memory.subrange(addr, addr + len)
        }
    }

    /// The machine with `data` stored from `addr` on.
    pub open spec fn store(self, addr: int, data: Seq<u8>) -> GuestView {
        GuestView { memory: overwrite(self.memory, addr, data), ..self }
    }
}

/// The eight bytes at `addr`, read as a little-endian number.
pub open spec fn word_at(memory: Seq<u8>, addr: int) -> u64 {
    spec_u64_from_le_bytes(memory.subrange(addr, addr + 8))
}

/// `memory` with `data` laid over it from `addr` on.
pub open spec fn overwrite(memory: Seq<u8>, addr: int, data: Seq<u8>) -> Seq<u8> {
    Seq::new(
        memory.len(),
        |i: int|
            if addr <= i < addr + data.len() {
                data[i - addr]
            } else {
                memory[i]
            },
    )
}

/// Reads one register.
///
/// Calls `CoreMachine::registers` and takes the entry at `index`. Trusted:
/// that this is the entry of `guest_registers` at `index`.
#[verifier::external_body]
pub(crate) fn register(machine: &Guest, index: usize) -> (value: u64)
    requires
        index < REGISTER_COUNT,
    ensures
        value == guest_registers(*machine)[index as int],
{
    machine.core.registers()[index]
}

/// Writes one register.
///
/// Calls `CoreMachine::set_register`. Trusted: that the one register takes
/// the value and nothing else of the machine changes, and that a machine has
/// `REGISTER_COUNT` registers.
#[verifier::external_body]
pub(crate) fn set_register(machine: &mut Guest, index: usize, value: u64)
    requires
        index < REGISTER_COUNT,
    ensures
        guest_registers(*final(machine)) == guest_registers(*old(machine)).update(
            index as int,
            value,
        ),
        guest_registers(*old(machine)).len() == REGISTER_COUNT,
        guest_memory(*final(machine)) == guest_memory(*old(machine)),
        guest_sealed(*final(machine)) == guest_sealed(*old(machine)),
{
    machine.core.set_register(index, value)
}

/// Loads the byte at `addr`.
///
/// Calls `Memory::load8`. Trusted: that the load succeeds exactly when the
/// byte lies inside the memory, that it then gives that byte, that it leaves
/// the machine as it was, and that no memory is larger than `MAX_MEMORY`.
#[verifier::external_body]
pub(crate) fn load_byte(machine: &mut Guest, addr: u64) -> (r: Result<u8, VmError>)
    ensures
        guest_registers(*final(machine)) == guest_registers(*old(machine)),
        guest_memory(*final(machine)) == guest_memory(*old(machine)),
        guest_sealed(*final(machine)) == guest_sealed(*old(machine)),
        guest_memory(*old(machine)).len() <= MAX_MEMORY,
        r is Ok <==> old(machine)@.readable(addr as int, 1),
        r is Ok ==> r->Ok_0 == guest_memory(*old(machine))[addr as int],
{
    Ok(machine.core.memory_mut().load8(&addr)?.to_u8())
}

/// Loads the eight bytes at `addr` as a little-endian number.
///
/// Calls `Memory::load64`. Trusted: that the load succeeds exactly when the
/// eight bytes lie inside the memory, that it then gives their little-endian
/// value, that it leaves the machine as it was, and that no memory is larger
/// than `MAX_MEMORY`.
#[verifier::external_body]
pub(crate) fn load_word(machine: &mut Guest, addr: u64) -> (r: Result<u64, VmError>)
    ensures
        guest_registers(*final(machine)) == guest_registers(*old(machine)),
        guest_memory(*final(machine)) == guest_memory(*old(machine)),
        guest_sealed(*final(machine)) == guest_sealed(*old(machine)),
        guest_memory(*old(machine)).len() <= MAX_MEMORY,
        r is Ok <==> old(machine)@.readable(addr as int, 8),
        r is Ok ==> r->Ok_0 == word_at(guest_memory(*old(machine)), addr as int),
{
    machine.core.memory_mut().load64(&addr)
}

/// Loads `len` bytes from `addr` on.
///
/// Calls `Memory::load_bytes`. Trusted: that a load of no bytes succeeds
/// wherever `addr` points, that any other succeeds exactly when the bytes lie
/// inside the memory, that it then gives those bytes, that it leaves the
/// machine as it was, and that no memory is larger than `MAX_MEMORY`.
#[verifier::external_body]
pub(crate) fn load_bytes(machine: &mut Guest, addr: u64, len: u64) -> (r: Result<
    Vec<u8>,
    VmError,
>)
    ensures
        guest_registers(*final(machine)) == guest_registers(*old(machine)),
        guest_memory(*final(machine)) == guest_memory(*old(machine)),
        guest_sealed(*final(machine)) == guest_sealed(*old(machine)),
        guest_memory(*old(machine)).len() <= MAX_MEMORY,
        r is Ok <==> (len == 0 || old(machine)@.readable(addr as int, len as int)),
        r is Ok ==> r->Ok_0@ == (if len == 0 {
            Seq::<u8>::empty()
        } else {
            guest_memory(*old(machine)).subrange(addr as int, addr as int + len as int)
        }),
{
    machine.core.memory_mut().load_bytes(addr, len).map(|bytes| bytes.to_vec())
}

/// Stores `value` as eight little-endian bytes at `addr`.
///
/// Calls `Memory::store64`. Trusted: that the store succeeds exactly when the
/// eight bytes lie inside the memory and on no sealed page, that it then
/// changes those bytes and no others, that a store that fails changes no
/// byte, and that registers and page marks stay as they were.
#[verifier::external_body]
pub(crate) fn store_word(machine: &mut Guest, addr: u64, value: u64) -> (r: Result<
    (),
    VmError,
>)
    ensures
        guest_registers(*final(machine)) == guest_registers(*old(machine)),
        guest_sealed(*final(machine)) == guest_sealed(*old(machine)),
        r is Ok <==> old(machine)@.writable(addr as int, 8),
        r is Ok ==> guest_memory(*final(machine)) == overwrite(
            guest_memory(*old(machine)),
            addr as int,
            spec_u64_to_le_bytes(value),
        ),
        r is Err ==> guest_memory(*final(machine)) == guest_memory(*old(machine)),
{
    machine.core.memory_mut().store64(&addr, &value)
}

/// Stores `data` from `addr` on.
///
/// Calls `Memory::store_bytes`. Trusted: that a store of no bytes succeeds
/// wherever `addr` points, that any other succeeds exactly when the bytes lie
/// inside the memory and on no sealed page, that it then changes those bytes
/// and no others, that a store that fails changes no byte, and that registers
/// and page marks stay as they were.
#[verifier::external_body]
pub(crate) fn store_bytes(machine: &mut Guest, addr: u64, data: &[u8]) -> (r: Result<
    (),
    VmError,
>)
    ensures
        guest_registers(*final(machine)) == guest_registers(*old(machine)),
        guest_sealed(*final(machine)) == guest_sealed(*old(machine)),
        r is Ok <==> (data@.len() == 0 || old(machine)@.writable(
            addr as int,
            data@.len() as int,
        )),
        r is Ok ==> guest_memory(*final(machine)) == overwrite(
            guest_memory(*old(machine)),
            addr as int,
            data@,
        ),
        r is Err ==> guest_memory(*final(machine)) == guest_memory(*old(machine)),
{
    machine.core.memory_mut().store_bytes(addr, data)
}

} // verus!
