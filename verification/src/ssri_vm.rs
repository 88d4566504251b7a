//! The syscalls that a guest can make, and what the host does on each.

use crate::cell::{
    blake2b_256, cell_output_layout, digest, occupied_capacity, optional_script_layout,
    out_point_fields, out_point_layout, script_fields, script_hash, script_layout, is_script_layout,
    LiveCell, OutPoint, OutPointView, Script, ScriptView, Transaction, OUT_POINT_SIZE,
};
use crate::codec::{as_codes, hex_encode, hex_of, lemma_hex_is_ascii};
use crate::error::{Error, ErrorView};
use crate::machine::{
    load_byte, load_bytes, load_word, register, set_register, store_bytes, store_word,
    word_at, Guest, GuestView, A0, A1, A2, A3, A4, A5, A7, MAX_MEMORY,
};
use crate::text::{decimal, decimal_text, text_of};
use crate::types::{CellOutputWithData, CellView, Hex};
use ckb_vm::Error as VmError;
use vstd::bytes::{spec_u64_to_le_bytes, u64_to_le_bytes};
use vstd::prelude::*;
use vstd::slice::slice_subrange;
use vstd::string::*;
use vstd::utf8::{decode_utf8, valid_utf8};

verus! {

/// Where a guest says a cell is to be read from.
#[derive(Clone, Copy, Debug, PartialEq, Eq, Structural)]
pub enum Source {
    Input,
    Output,
    CellDep,
    HeaderDep,
    GroupInput,
    GroupOutput,
}

impl Source {
    /// The number by which a guest names this source.
    pub open spec fn spec_value(self) -> u64 {
        match self {
            Source::Input => 1,
            Source::Output => 2,
            Source::CellDep => 3,
            Source::HeaderDep => 4,
            Source::GroupInput => 0x0100_0000_0000_0001,
            Source::GroupOutput => 0x0100_0000_0000_0002,
        }
    }

    #[verifier::when_used_as_spec(spec_value)]
    pub fn value(self) -> (value: u64)
        ensures
            value == self.spec_value(),
    {
        match self {
            Source::Input => 1,
            Source::Output => 2,
            Source::CellDep => 3,
            Source::HeaderDep => 4,
            Source::GroupInput => 0x0100_0000_0000_0001,
            Source::GroupOutput => 0x0100_0000_0000_0002,
        }
    }
}

/// The part of a cell that a guest asks for.
#[derive(Clone, Copy, Debug, PartialEq, Eq, Structural)]
pub enum CellField {
    Capacity,
    DataHash,
    Lock,
    LockHash,
    Type,
    TypeHash,
    OccupiedCapacity,
}

/// Why a syscall was not served.
#[derive(Debug)]
pub enum SyscallError {
    /// The request set no script.
    ScriptMissing,
    /// The request set no cell.
    CellMissing,
    /// The guest asked for another cell than the first of the input group.
    InvalidIndexOrSource,
    /// The cell has no data.
    CellDataMissing,
    /// The guest named a field that no cell has.
    InvalidCellField(u64),
    /// The bytes the guest handed over are no script.
    InvalidTypeScript,
    /// The chain has no such cell.
    CellNotFound,
    /// The chain could not be asked; the text says why.
    Chain(String),
    /// The machine refused a load or a store.
    Machine(VmError),
    /// The guest asked for bytes beyond the end of the result.
    WindowOutOfRange,
    /// The capacity a cell occupies is too large a number.
    CapacityOverflow,
    /// The chain reported a cell without the data that was asked for.
    DataNotReturned,
    /// The string that the guest wants printed is not UTF-8.
    InvalidDebugText,
}

/// What a `SyscallError` says, the machine's own error left out.
pub enum Refusal {
    ScriptMissing,
    CellMissing,
    InvalidIndexOrSource,
    CellDataMissing,
    InvalidCellField(u64),
    InvalidTypeScript,
    CellNotFound,
    Chain(Seq<char>),
    Machine,
    WindowOutOfRange,
    CapacityOverflow,
    DataNotReturned,
    InvalidDebugText,
}

impl View for SyscallError {
    type V = Refusal;

    open spec fn view(&self) -> Refusal {
        match self {
            SyscallError::ScriptMissing => Refusal::ScriptMissing,
            SyscallError::CellMissing => Refusal::CellMissing,
            SyscallError::InvalidIndexOrSource => Refusal::InvalidIndexOrSource,
            SyscallError::CellDataMissing => Refusal::CellDataMissing,
            SyscallError::InvalidCellField(field) => Refusal::InvalidCellField(*field),
            SyscallError::InvalidTypeScript => Refusal::InvalidTypeScript,
            SyscallError::CellNotFound => Refusal::CellNotFound,
            SyscallError::Chain(message) => Refusal::Chain(message@),
            SyscallError::Machine(_) => Refusal::Machine,
            SyscallError::WindowOutOfRange => Refusal::WindowOutOfRange,
            SyscallError::CapacityOverflow => Refusal::CapacityOverflow,
            SyscallError::DataNotReturned => Refusal::DataNotReturned,
            SyscallError::InvalidDebugText => Refusal::InvalidDebugText,
        }
    }
}

impl Refusal {
    /// The words that the machine's unexpected error carries for this
    /// refusal. The machine's own error has words of its own.
    pub open spec fn message(self) -> Option<Seq<char>> {
        match self {
            Refusal::ScriptMissing => Some("Script is missing"@),
            Refusal::CellMissing => Some("Cell is missing"@),
            Refusal::InvalidIndexOrSource => Some("Invalid index or source"@),
            Refusal::CellDataMissing => Some("Cell data is missing"@),
            Refusal::InvalidCellField(field) => Some(
                "Invalid cell field "@ + decimal(field as nat),
            ),
            Refusal::InvalidTypeScript => Some("Invalid type script"@),
            Refusal::CellNotFound => Some("Cell not found"@),
            Refusal::Chain(message) => Some(message),
            Refusal::Machine => None,
            Refusal::WindowOutOfRange => Some("Result window out of range"@),
            Refusal::CapacityOverflow => Some("Occupied capacity overflow"@),
            Refusal::DataNotReturned => Some("Cell data was not returned"@),
            Refusal::InvalidDebugText => Some("Debug text is not valid UTF-8"@),
        }
    }
}

impl SyscallError {
    /// The words that go with this refusal, or nothing for the machine's own
    /// error.
    pub fn message(&self) -> (message: Option<String>)
        ensures
            message is Some <==> self@.message() is Some,
            message matches Some(text) ==> text@ == self@.message()->0,
    {
        match self {
            SyscallError::ScriptMissing => Some(String::from_str("Script is missing")),
            SyscallError::CellMissing => Some(String::from_str("Cell is missing")),
            SyscallError::InvalidIndexOrSource => Some(
                String::from_str("Invalid index or source"),
            ),
            SyscallError::CellDataMissing => Some(String::from_str("Cell data is missing")),
            SyscallError::InvalidCellField(field) => {
                let mut text = String::from_str("Invalid cell field ");
                let digits = decimal_text(*field);
                text.append(digits.as_str());
                Some(text)
            },
            SyscallError::InvalidTypeScript => Some(String::from_str("Invalid type script")),
            SyscallError::CellNotFound => Some(String::from_str("Cell not found")),
            SyscallError::Chain(message) => Some(message.clone()),
            SyscallError::Machine(_) => None,
            SyscallError::WindowOutOfRange => Some(
                String::from_str("Result window out of range"),
            ),
            SyscallError::CapacityOverflow => Some(
                String::from_str("Occupied capacity overflow"),
            ),
            SyscallError::DataNotReturned => Some(
                String::from_str("Cell data was not returned"),
            ),
            SyscallError::InvalidDebugText => Some(
                String::from_str("Debug text is not valid UTF-8"),
            ),
        }
    }
}

impl CellField {
    /// The number by which a guest names this field.
    pub open spec fn spec_value(self) -> u64 {
        match self {
            CellField::Capacity => 0,
            CellField::DataHash => 1,
            CellField::Lock => 2,
            CellField::LockHash => 3,
            CellField::Type => 4,
            CellField::TypeHash => 5,
            CellField::OccupiedCapacity => 6,
        }
    }

    /// The field that a guest names by `value`.
    pub open spec fn spec_try_from(value: u64) -> Result<CellField, Refusal> {
        if value == 0 {
            Ok(CellField::Capacity)
        } else if value == 1 {
            Ok(CellField::DataHash)
        } else if value == 2 {
            Ok(CellField::Lock)
        } else if value == 3 {
            Ok(CellField::LockHash)
        } else if value == 4 {
            Ok(CellField::Type)
        } else if value == 5 {
            Ok(CellField::TypeHash)
        } else if value == 6 {
            Ok(CellField::OccupiedCapacity)
        } else {
            Err(Refusal::InvalidCellField(value))
        }
    }

    #[verifier::when_used_as_spec(spec_value)]
    pub fn value(self) -> (value: u64)
        ensures
            value == self.spec_value(),
    {
        match self {
            CellField::Capacity => 0,
            CellField::DataHash => 1,
            CellField::Lock => 2,
            CellField::LockHash => 3,
            CellField::Type => 4,
            CellField::TypeHash => 5,
            CellField::OccupiedCapacity => 6,
        }
    }

    /// Reads the number by which a guest names a field. A number that names
    /// none is refused.
    pub fn try_from(value: u64) -> (r: Result<CellField, SyscallError>)
        ensures
            result_view(r) == CellField::spec_try_from(value),
            r matches Ok(field) ==> field.spec_value() == value,
    {
        match value {
            0 => Ok(CellField::Capacity),
            1 => Ok(CellField::DataHash),
            2 => Ok(CellField::Lock),
            3 => Ok(CellField::LockHash),
            4 => Ok(CellField::Type),
            5 => Ok(CellField::TypeHash),
            6 => Ok(CellField::OccupiedCapacity),
            _ => Err(SyscallError::InvalidCellField(value)),
        }
    }
}

/// A result with its refusal seen as the handlers' contracts see it.
pub open spec fn result_view<T>(r: Result<T, SyscallError>) -> Result<T, Refusal> {
    match r {
        Ok(value) => Ok(value),
        Err(e) => Err(e@),
    }
}

/// A result of bytes with both sides seen as the handlers' contracts see
/// them.
pub open spec fn bytes_view(r: Result<Vec<u8>, SyscallError>) -> Result<Seq<u8>, Refusal> {
    match r {
        Ok(bytes) => Ok(bytes@),
        Err(e) => Err(e@),
    }
}

/// The bytes that a guest gets for one field of `cell`.
pub open spec fn cell_field_bytes(cell: CellView, field: u64) -> Result<Seq<u8>, Refusal> {
    match CellField::spec_try_from(field) {
        Err(e) => Err(e),
        Ok(CellField::Capacity) => Ok(spec_u64_to_le_bytes(cell.cell_output.capacity)),
        Ok(CellField::DataHash) => match cell.hex_data {
            None => Err(Refusal::CellDataMissing),
            Some(data) => Ok(blake2b_256(data)),
        },
        Ok(CellField::Lock) => Ok(script_layout(cell.cell_output.lock)),
        Ok(CellField::LockHash) => Ok(script_hash(cell.cell_output.lock)),
        Ok(CellField::Type) => Ok(optional_script_layout(cell.cell_output.type_)),
        Ok(CellField::TypeHash) => match cell.cell_output.type_ {
            Some(script) => Ok(script_hash(script)),
            None => Ok(Seq::empty()),
        },
        Ok(CellField::OccupiedCapacity) => match cell.hex_data {
            None => Err(Refusal::CellDataMissing),
            Some(data) => {
                let shannons = occupied_capacity(cell.cell_output, data.len() / 2);
                if shannons <= u64::MAX {
                    Ok(spec_u64_to_le_bytes(shannons as u64))
                } else {
                    Err(Refusal::CapacityOverflow)
                }
            },
        },
    }
}

/// Computes the bytes of one field of `cell`.
pub fn field_of_cell(cell: &CellOutputWithData, field: u64) -> (r: Result<Vec<u8>, SyscallError>)
    ensures
        bytes_view(r) == cell_field_bytes(cell@, field),
{
    let field = match CellField::try_from(field) {
        Ok(field) => field,
        Err(e) => {
            return Err(e);
        },
    };
    match field {
        CellField::Capacity => Ok(u64_to_le_bytes(cell.cell_output.capacity)),
        CellField::DataHash => match &cell.hex_data {
            None => Err(SyscallError::CellDataMissing),
            Some(data) => Ok(digest(data.hex.as_slice())),
        },
        CellField::Lock => Ok(cell.cell_output.lock.to_bytes()),
        CellField::LockHash => Ok(cell.cell_output.lock.hash()),
        CellField::Type => match &cell.cell_output.type_ {
            Some(script) => Ok(script.to_bytes()),
            None => Ok(Vec::new()),
        },
        CellField::TypeHash => match &cell.cell_output.type_ {
            Some(script) => Ok(script.hash()),
            None => Ok(Vec::new()),
        },
        CellField::OccupiedCapacity => match &cell.hex_data {
            None => Err(SyscallError::CellDataMissing),
            Some(data) => match cell.cell_output.occupied_capacity(data.hex.len() / 2) {
                Some(shannons) => Ok(u64_to_le_bytes(shannons)),
                None => Err(SyscallError::CapacityOverflow),
            },
        },
    }
}

/// The machine after a call, and how the call ended.
pub type Served = (GuestView, Result<(), Refusal>);

/// The output convention. The true size of `data` goes to `len_addr`. Where
/// the guest offered room for `capacity` bytes, that many bytes of `data`
/// from `offset` on go to `addr`.
pub open spec fn emit_spec(
    guest: GuestView,
    len_addr: u64,
    data: Seq<u8>,
    addr: u64,
    offset: u64,
    capacity: u64,
) -> Served {
    let sized = guest.store(len_addr as int, spec_u64_to_le_bytes(data.len() as u64));
    if !guest.writable(len_addr as int, 8) {
        (guest, Err(Refusal::Machine))
    } else if capacity == 0 {
        (sized, Ok(()))
    } else if offset + capacity > data.len() {
        (sized, Err(Refusal::WindowOutOfRange))
    } else if !guest.writable(addr as int, capacity as int) {
        (sized, Err(Refusal::Machine))
    } else {
        (sized.store(addr as int, data.subrange(offset as int, offset + capacity)), Ok(()))
    }
}

/// A call that hands bytes to the guest. It is refused `early` before the
/// guest's memory is looked at. Then the room that the guest offers is read
/// from where `A1` points. Then `late` is either a refusal or the bytes,
/// which go out from `offset` on by the output convention, to where `A0`
/// points.
pub open spec fn answer_spec(
    guest: GuestView,
    early: Option<Refusal>,
    late: Result<Seq<u8>, Refusal>,
    offset: u64,
) -> Served {
    let len_addr = guest.registers[A1 as int];
    match early {
        Some(e) => (guest, Err(e)),
        None => if !guest.readable(len_addr as int, 8) {
            (guest, Err(Refusal::Machine))
        } else {
            match late {
                Err(e) => (guest, Err(e)),
                Ok(data) => emit_spec(
                    guest,
                    len_addr,
                    data,
                    guest.registers[A0 as int],
                    offset,
                    word_at(guest.memory, len_addr as int),
                ),
            }
        },
    }
}

/// The guest asks for the first cell of the input group.
pub open spec fn names_group_input(guest: GuestView) -> bool {
    guest.registers[A3 as int] == 0 && guest.registers[A4 as int]
        == Source::GroupInput.spec_value()
}

/// What one execution knows: the result that the guest has published so
/// far, and the script, cell and transaction that the request set.
#[derive(Debug)]
pub struct Context {
    pub content: Option<Vec<u8>>,
    pub script: Option<Script>,
    pub cell: Option<CellOutputWithData>,
    pub tx: Option<Transaction>,
}

/// What a `Context` holds.
pub struct ContextView {
    pub content: Option<Seq<u8>>,
    pub script: Option<ScriptView>,
    pub cell: Option<CellView>,
    pub tx: Option<Seq<u8>>,
}

impl View for Context {
    type V = ContextView;

    open spec fn view(&self) -> ContextView {
        ContextView {
            content: match self.content {
                Some(bytes) => Some(bytes@),
                None => None,
            },
            script: match self.script {
                Some(script) => Some(script@),
                None => None,
            },
            cell: match self.cell {
                Some(cell) => Some(cell@),
                None => None,
            },
            tx: match self.tx {
                Some(tx) => Some(tx.raw@),
                None => None,
            },
        }
    }
}

impl ContextView {
    /// The refusal for a request that set no script.
    pub open spec fn script_gap(self) -> Option<Refusal> {
        if self.script is None {
            Some(Refusal::ScriptMissing)
        } else {
            None
        }
    }

    /// The refusal for a request that set no cell.
    pub open spec fn cell_gap(self) -> Option<Refusal> {
        if self.cell is None {
            Some(Refusal::CellMissing)
        } else {
            None
        }
    }

    /// `load_script`: the serialization of the script.
    pub open spec fn load_script(self, guest: GuestView) -> Served {
        answer_spec(
            guest,
            self.script_gap(),
            Ok(script_layout(self.script->0)),
            guest.registers[A2 as int],
        )
    }

    /// `load_script_hash`: the hash of the script.
    pub open spec fn load_script_hash(self, guest: GuestView) -> Served {
        answer_spec(
            guest,
            self.script_gap(),
            Ok(script_hash(self.script->0)),
            guest.registers[A2 as int],
        )
    }

    /// `load_cell`: the serialization of the cell's output.
    pub open spec fn load_cell(self, guest: GuestView) -> Served {
        answer_spec(
            guest,
            self.cell_gap(),
            if names_group_input(guest) {
                Ok(cell_output_layout(self.cell->0.cell_output))
            } else {
                Err(Refusal::InvalidIndexOrSource)
            },
            guest.registers[A2 as int],
        )
    }

    /// `load_cell_data`: the cell's data.
    pub open spec fn load_cell_data(self, guest: GuestView) -> Served {
        answer_spec(
            guest,
            self.cell_gap(),
            if names_group_input(guest) {
                match self.cell->0.hex_data {
                    Some(data) => Ok(data),
                    None => Err(Refusal::CellDataMissing),
                }
            } else {
                Err(Refusal::InvalidIndexOrSource)
            },
            guest.registers[A2 as int],
        )
    }

    /// `load_cell_by_field`: the field of the cell that `A5` names.
    pub open spec fn load_cell_by_field(self, guest: GuestView) -> Served {
        answer_spec(
            guest,
            self.cell_gap(),
            if names_group_input(guest) {
                cell_field_bytes(self.cell->0, guest.registers[A5 as int])
            } else {
                Err(Refusal::InvalidIndexOrSource)
            },
            guest.registers[A2 as int],
        )
    }
}

/// Follows the output convention on the machine.
fn emit(
    machine: &mut Guest,
    len_addr: u64,
    data: &[u8],
    addr: u64,
    offset: u64,
    capacity: u64,
) -> (r: Result<(), SyscallError>)
    ensures
        (final(machine)@, result_view(r)) == emit_spec(
            old(machine)@,
            len_addr,
            data@,
            addr,
            offset,
            capacity,
        ),
{
    let size = data.len() as u64;
    match store_word(machine, len_addr, size) {
        Ok(()) => {},
        Err(e) => {
            return Err(SyscallError::Machine(e));
        },
    }
    if capacity == 0 {
        return Ok(());
    }
    if offset > size || capacity > size - offset {
        return Err(SyscallError::WindowOutOfRange);
    }
    let window = slice_subrange(data, offset as usize, (offset + capacity) as usize);
    match store_bytes(machine, addr, window) {
        Ok(()) => Ok(()),
        Err(e) => Err(SyscallError::Machine(e)),
    }
}

/// Hands `late` to the guest, after the room it offers has been read.
fn answer(machine: &mut Guest, late: Result<Vec<u8>, SyscallError>, offset: u64) -> (r: Result<
    (),
    SyscallError,
>)
    ensures
        (final(machine)@, result_view(r)) == answer_spec(
            old(machine)@,
            None,
            bytes_view(late),
            offset,
        ),
{
    let addr = register(machine, A0);
    let len_addr = register(machine, A1);
    let capacity = match load_word(machine, len_addr) {
        Ok(capacity) => capacity,
        Err(e) => {
            return Err(SyscallError::Machine(e));
        },
    };
    match late {
        Ok(data) => emit(machine, len_addr, data.as_slice(), addr, offset, capacity),
        Err(e) => Err(e),
    }
}

impl Context {
    /// A context with nothing published yet.
    pub fn new(
        script: Option<Script>,
        cell: Option<CellOutputWithData>,
        tx: Option<Transaction>,
    ) -> (context: Context)
        ensures
            context.content is None,
            context.script == script,
            context.cell == cell,
            context.tx == tx,
    {
        Context { content: None, script, cell, tx }
    }

    /// Serves `load_script`.
    pub fn load_script(&self, machine: &mut Guest) -> (r: Result<(), SyscallError>)
        ensures
            (final(machine)@, result_view(r)) == self@.load_script(old(machine)@),
    {
        let script = match &self.script {
            Some(script) => script,
            None => {
                return Err(SyscallError::ScriptMissing);
            },
        };
        let offset = register(machine, A2);
        answer(machine, Ok(script.to_bytes()), offset)
    }

    /// Serves `load_script_hash`.
    pub fn load_script_hash(&self, machine: &mut Guest) -> (r: Result<(), SyscallError>)
        ensures
            (final(machine)@, result_view(r)) == self@.load_script_hash(old(machine)@),
    {
        let script = match &self.script {
            Some(script) => script,
            None => {
                return Err(SyscallError::ScriptMissing);
            },
        };
        let offset = register(machine, A2);
        answer(machine, Ok(script.hash()), offset)
    }

    /// Serves `load_cell`.
    pub fn load_cell(&self, machine: &mut Guest) -> (r: Result<(), SyscallError>)
        ensures
            (final(machine)@, result_view(r)) == self@.load_cell(old(machine)@),
    {
        let cell = match &self.cell {
            Some(cell) => cell,
            None => {
                return Err(SyscallError::CellMissing);
            },
        };
        let offset = register(machine, A2);
        let index = register(machine, A3);
        let source = register(machine, A4);
        let late = if index != 0 || source != Source::GroupInput.value() {
            Err(SyscallError::InvalidIndexOrSource)
        } else {
            Ok(cell.cell_output.to_bytes())
        };
        answer(machine, late, offset)
    }

    /// Serves `load_cell_data`.
    pub fn load_cell_data(&self, machine: &mut Guest) -> (r: Result<(), SyscallError>)
        ensures
            (final(machine)@, result_view(r)) == self@.load_cell_data(old(machine)@),
    {
        let cell = match &self.cell {
            Some(cell) => cell,
            None => {
                return Err(SyscallError::CellMissing);
            },
        };
        let offset = register(machine, A2);
        let index = register(machine, A3);
        let source = register(machine, A4);
        let late = if index != 0 || source != Source::GroupInput.value() {
            Err(SyscallError::InvalidIndexOrSource)
        } else {
            match &cell.hex_data {
                Some(data) => Ok(data.hex.clone()),
                None => Err(SyscallError::CellDataMissing),
            }
        };
        answer(machine, late, offset)
    }

    /// Serves `load_cell_by_field`.
    pub fn load_cell_by_field(&self, machine: &mut Guest) -> (r: Result<(), SyscallError>)
        ensures
            (final(machine)@, result_view(r)) == self@.load_cell_by_field(old(machine)@),
    {
        let cell = match &self.cell {
            Some(cell) => cell,
            None => {
                return Err(SyscallError::CellMissing);
            },
        };
        let offset = register(machine, A2);
        let index = register(machine, A3);
        let source = register(machine, A4);
        let field = register(machine, A5);
        let late = if index != 0 || source != Source::GroupInput.value() {
            Err(SyscallError::InvalidIndexOrSource)
        } else {
            field_of_cell(cell, field)
        };
        answer(machine, late, offset)
    }
}

/// The numbers by which a guest names the syscalls.
pub const SYS_VERSION: u64 = 2041;

pub const SYS_LOAD_SCRIPT: u64 = 2052;

pub const SYS_LOAD_SCRIPT_HASH: u64 = 2061;

pub const SYS_LOAD_CELL: u64 = 2071;

pub const SYS_LOAD_CELL_BY_FIELD: u64 = 2081;

pub const SYS_LOAD_CELL_DATA: u64 = 2091;

pub const SYS_SET_CONTENT: u64 = 2103;

pub const SYS_DEBUG: u64 = 2177;

pub const SYS_FIND_OUT_POINT_BY_TYPE: u64 = 2277;

pub const SYS_FIND_CELL_BY_OUT_POINT: u64 = 2287;

pub const SYS_FIND_CELL_DATA_BY_OUT_POINT: u64 = 2297;

/// A question that only the chain can answer.
#[derive(Clone, Debug, PartialEq, Eq)]
pub enum Lookup {
    /// The first cell whose type is this script.
    OutPointByType(Script),
    /// The cell at this out-point, without its data.
    CellByOutPoint(OutPoint),
    /// The cell at this out-point, with its data.
    CellDataByOutPoint(OutPoint),
}

/// What a `Lookup` holds.
pub enum LookupView {
    OutPointByType(ScriptView),
    CellByOutPoint(OutPointView),
    CellDataByOutPoint(OutPointView),
}

impl View for Lookup {
    type V = LookupView;

    open spec fn view(&self) -> LookupView {
        match self {
            Lookup::OutPointByType(script) => LookupView::OutPointByType(script@),
            Lookup::CellByOutPoint(out_point) => LookupView::CellByOutPoint(out_point@),
            Lookup::CellDataByOutPoint(out_point) => LookupView::CellDataByOutPoint(out_point@),
        }
    }
}

/// How a syscall was served.
#[derive(Debug)]
pub enum Ecall {
    /// The number names no syscall of this host.
    Unhandled,
    /// The syscall is done.
    Handled,
    /// The syscall is done once the host has printed this text.
    Debug(String),
    /// The host has to ask the chain, and to hand the answer to the function
    /// that delivers it.
    Lookup(Lookup),
}

/// What an `Ecall` holds.
pub enum EcallView {
    Unhandled,
    Handled,
    Debug(Seq<char>),
    Lookup(LookupView),
}

impl View for Ecall {
    type V = EcallView;

    open spec fn view(&self) -> EcallView {
        match self {
            Ecall::Unhandled => EcallView::Unhandled,
            Ecall::Handled => EcallView::Handled,
            Ecall::Debug(text) => EcallView::Debug(text@),
            Ecall::Lookup(lookup) => EcallView::Lookup(lookup@),
        }
    }
}

/// A served syscall with both sides seen as the contracts see them.
pub open spec fn ecall_view(r: Result<Ecall, SyscallError>) -> Result<EcallView, Refusal> {
    match r {
        Ok(served) => Ok(served@),
        Err(e) => Err(e@),
    }
}

/// A question with both sides seen as the contracts see them.
pub open spec fn lookup_view(r: Result<Lookup, SyscallError>) -> Result<LookupView, Refusal> {
    match r {
        Ok(lookup) => Ok(lookup@),
        Err(e) => Err(e@),
    }
}

/// Where the string that starts at `from` ends: the address of the first
/// zero byte from there on, or an address outside the memory where there is
/// none.
pub open spec fn string_end(memory: Seq<u8>, from: int) -> int
    decreases memory.len() - from,
{
    if from < 0 || from >= memory.len() {
        from
    } else if memory[from] == 0 {
        from
    } else {
        string_end(memory, from + 1)
    }
}

/// `debug`: the text of the string that `A0` points to, for the host to
/// print. A string that runs out of the memory is the machine's failure, and
/// one that is not UTF-8 is refused.
pub open spec fn debug_spec(guest: GuestView) -> Result<EcallView, Refusal> {
    let from = guest.registers[A0 as int] as int;
    let end = string_end(guest.memory, from);
    if end >= guest.memory.len() {
        Err(Refusal::Machine)
    } else if !valid_utf8(guest.memory.subrange(from, end)) {
        Err(Refusal::InvalidDebugText)
    } else {
        Ok(EcallView::Debug(decode_utf8(guest.memory.subrange(from, end))))
    }
}

/// `find_out_point_by_type`: the script of `A3` bytes that `A2` points to,
/// for the host to search the chain with.
pub open spec fn find_out_point_by_type_spec(guest: GuestView) -> Result<LookupView, Refusal> {
    let at = guest.registers[A2 as int] as int;
    let len = guest.registers[A3 as int] as int;
    if !guest.readable(guest.registers[A1 as int] as int, 8) {
        Err(Refusal::Machine)
    } else if !guest.loadable(at, len) {
        Err(Refusal::Machine)
    } else if !is_script_layout(guest.bytes_at(at, len)) {
        Err(Refusal::InvalidTypeScript)
    } else {
        Ok(LookupView::OutPointByType(script_fields(guest.bytes_at(at, len))))
    }
}

/// The out-point that `A2` points to, if the guest's memory holds one there
/// and the room that the guest offers can be read.
pub open spec fn out_point_asked(guest: GuestView) -> Result<OutPointView, Refusal> {
    let at = guest.registers[A2 as int] as int;
    if !guest.readable(guest.registers[A1 as int] as int, 8) {
        Err(Refusal::Machine)
    } else if !guest.readable(at, OUT_POINT_SIZE as int) {
        Err(Refusal::Machine)
    } else {
        Ok(out_point_fields(guest.memory.subrange(at, at + OUT_POINT_SIZE)))
    }
}

/// `find_cell_by_out_point`: the out-point that `A2` points to, for the host
/// to ask the chain for the cell.
pub open spec fn find_cell_by_out_point_spec(guest: GuestView) -> Result<LookupView, Refusal> {
    match out_point_asked(guest) {
        Ok(out_point) => Ok(LookupView::CellByOutPoint(out_point)),
        Err(e) => Err(e),
    }
}

/// `find_cell_data_by_out_point`: the out-point that `A2` points to, for the
/// host to ask the chain for the cell and its data.
pub open spec fn find_cell_data_by_out_point_spec(guest: GuestView) -> Result<
    LookupView,
    Refusal,
> {
    match out_point_asked(guest) {
        Ok(out_point) => Ok(LookupView::CellDataByOutPoint(out_point)),
        Err(e) => Err(e),
    }
}

/// A handler's end as the end of the syscall.
pub open spec fn handled(served: Result<(), Refusal>) -> Result<EcallView, Refusal> {
    match served {
        Ok(()) => Ok(EcallView::Handled),
        Err(e) => Err(e),
    }
}

/// A question as the end of the syscall.
pub open spec fn pending(asked: Result<LookupView, Refusal>) -> Result<EcallView, Refusal> {
    match asked {
        Ok(lookup) => Ok(EcallView::Lookup(lookup)),
        Err(e) => Err(e),
    }
}

/// The context, the machine and the end of a syscall.
pub type Step = (ContextView, GuestView, Result<EcallView, Refusal>);

impl ContextView {
    /// `set_content`: the bytes that `A0` points to, as many as the number
    /// that `A1` points to says, become the published result.
    pub open spec fn set_content(self, guest: GuestView) -> (ContextView, Result<(), Refusal>) {
        let at = guest.registers[A0 as int] as int;
        let len_addr = guest.registers[A1 as int] as int;
        let len = word_at(guest.memory, len_addr) as int;
        if !guest.readable(len_addr, 8) {
            (self, Err(Refusal::Machine))
        } else if !guest.loadable(at, len) {
            (self, Err(Refusal::Machine))
        } else {
            (ContextView { content: Some(guest.bytes_at(at, len)), ..self }, Ok(()))
        }
    }

    /// What the syscall that `A7` names does to the context and the machine,
    /// and how it ends.
    pub open spec fn ecall(self, guest: GuestView) -> Step {
        let number = guest.registers[A7 as int];
        if number == SYS_VERSION {
            (
                self,
                GuestView { registers: guest.registers.update(A0 as int, u64::MAX), ..guest },
                Ok(EcallView::Handled),
            )
        } else if number == SYS_LOAD_SCRIPT {
            (self, self.load_script(guest).0, handled(self.load_script(guest).1))
        } else if number == SYS_LOAD_SCRIPT_HASH {
            (self, self.load_script_hash(guest).0, handled(self.load_script_hash(guest).1))
        } else if number == SYS_LOAD_CELL {
            (self, self.load_cell(guest).0, handled(self.load_cell(guest).1))
        } else if number == SYS_LOAD_CELL_DATA {
            (self, self.load_cell_data(guest).0, handled(self.load_cell_data(guest).1))
        } else if number == SYS_LOAD_CELL_BY_FIELD {
            (self, self.load_cell_by_field(guest).0, handled(self.load_cell_by_field(guest).1))
        } else if number == SYS_FIND_OUT_POINT_BY_TYPE {
            (self, guest, pending(find_out_point_by_type_spec(guest)))
        } else if number == SYS_FIND_CELL_BY_OUT_POINT {
            (self, guest, pending(find_cell_by_out_point_spec(guest)))
        } else if number == SYS_FIND_CELL_DATA_BY_OUT_POINT {
            (self, guest, pending(find_cell_data_by_out_point_spec(guest)))
        } else if number == SYS_SET_CONTENT {
            (self.set_content(guest).0, guest, handled(self.set_content(guest).1))
        } else if number == SYS_DEBUG {
            (self, guest, debug_spec(guest))
        } else {
            (self, guest, Ok(EcallView::Unhandled))
        }
    }
}

/// Reads the room that the guest offers, as every chain syscall does before
/// it asks anything.
fn probe_room(machine: &mut Guest) -> (r: Result<(), SyscallError>)
    ensures
        final(machine)@ == old(machine)@,
        r is Ok <==> old(machine)@.readable(old(machine)@.registers[A1 as int] as int, 8),
        r matches Err(e) ==> e@ == Refusal::Machine,
{
    let len_addr = register(machine, A1);
    match load_word(machine, len_addr) {
        Ok(_) => Ok(()),
        Err(e) => Err(SyscallError::Machine(e)),
    }
}

/// Reads the out-point that a chain syscall names.
fn read_out_point(machine: &mut Guest) -> (r: Result<OutPoint, SyscallError>)
    ensures
        final(machine)@ == old(machine)@,
        match r {
            Ok(out_point) => Ok(out_point@),
            Err(e) => Err(e@),
        } == out_point_asked(old(machine)@),
{
    match probe_room(machine) {
        Ok(()) => {},
        Err(e) => {
            return Err(e);
        },
    }
    let at = register(machine, A2);
    let bytes = match load_bytes(machine, at, OUT_POINT_SIZE) {
        Ok(bytes) => bytes,
        Err(e) => {
            return Err(SyscallError::Machine(e));
        },
    };
    match OutPoint::from_bytes(bytes.as_slice()) {
        Some(out_point) => Ok(out_point),
        None => Err(SyscallError::InvalidTypeScript),
    }
}

impl Context {
    /// Serves the first half of `find_out_point_by_type`: reads the script
    /// that the guest asks about.
    pub fn find_out_point_by_type(&self, machine: &mut Guest) -> (r: Result<Lookup, SyscallError>)
        ensures
            final(machine)@ == old(machine)@,
            lookup_view(r) == find_out_point_by_type_spec(old(machine)@),
    {
        match probe_room(machine) {
            Ok(()) => {},
            Err(e) => {
                return Err(e);
            },
        }
        let at = register(machine, A2);
        let len = register(machine, A3);
        let bytes = match load_bytes(machine, at, len) {
            Ok(bytes) => bytes,
            Err(e) => {
                return Err(SyscallError::Machine(e));
            },
        };
        match Script::from_bytes(bytes.as_slice()) {
            Some(script) => Ok(Lookup::OutPointByType(script)),
            None => Err(SyscallError::InvalidTypeScript),
        }
    }

    /// Serves the first half of `find_cell_by_out_point`: reads the
    /// out-point that the guest asks about.
    pub fn find_cell_by_out_point(&self, machine: &mut Guest) -> (r: Result<Lookup, SyscallError>)
        ensures
            final(machine)@ == old(machine)@,
            lookup_view(r) == find_cell_by_out_point_spec(old(machine)@),
    {
        match read_out_point(machine) {
            Ok(out_point) => Ok(Lookup::CellByOutPoint(out_point)),
            Err(e) => Err(e),
        }
    }

    /// Serves the first half of `find_cell_data_by_out_point`: reads the
    /// out-point that the guest asks about.
    pub fn find_cell_data_by_out_point(&self, machine: &mut Guest) -> (r: Result<
        Lookup,
        SyscallError,
    >)
        ensures
            final(machine)@ == old(machine)@,
            lookup_view(r) == find_cell_data_by_out_point_spec(old(machine)@),
    {
        match read_out_point(machine) {
            Ok(out_point) => Ok(Lookup::CellDataByOutPoint(out_point)),
            Err(e) => Err(e),
        }
    }

    /// Serves `set_content`.
    pub fn set_content(&mut self, machine: &mut Guest) -> (r: Result<(), SyscallError>)
        ensures
            final(machine)@ == old(machine)@,
            (final(self)@, result_view(r)) == old(self)@.set_content(old(machine)@),
    {
        let at = register(machine, A0);
        let len_addr = register(machine, A1);
        let len = match load_word(machine, len_addr) {
            Ok(len) => len,
            Err(e) => {
                return Err(SyscallError::Machine(e));
            },
        };
        match load_bytes(machine, at, len) {
            Ok(bytes) => {
                self.content = Some(bytes);
                Ok(())
            },
            Err(e) => Err(SyscallError::Machine(e)),
        }
    }

    /// Serves `debug`: reads the string and decodes it for the host to print.
    pub fn debug(&self, machine: &mut Guest) -> (r: Result<Ecall, SyscallError>)
        ensures
            final(machine)@ == old(machine)@,
            ecall_view(r) == debug_spec(old(machine)@),
    {
        let start = register(machine, A0);
        let ghost pre = machine@;
        let mut addr = start;
        let mut buffer: Vec<u8> = Vec::new();
        loop
            invariant
                machine@ == pre,
                pre == old(machine)@,
                start == pre.registers[A0 as int],
                start <= addr,
                string_end(pre.memory, start as int) == string_end(pre.memory, addr as int),
                addr > start ==> addr <= pre.memory.len(),
                addr > start ==> buffer@ == pre.memory.subrange(start as int, addr as int),
                addr == start ==> buffer@ == Seq::<u8>::empty(),
            decreases MAX_MEMORY - addr,
        {
            match load_byte(machine, addr) {
                Err(e) => {
                    return Err(SyscallError::Machine(e));
                },
                Ok(byte) => {
                    if byte == 0 {
                        assert(buffer@ =~= pre.memory.subrange(start as int, addr as int));
                        return match text_of(buffer) {
                            Some(text) => Ok(Ecall::Debug(text)),
                            None => Err(SyscallError::InvalidDebugText),
                        };
                    }
                    buffer.push(byte);
                    addr = addr + 1;
                    assert(buffer@ =~= pre.memory.subrange(start as int, addr as int));
                },
            }
        }
    }

    /// Serves the syscall that the guest names in `A7`.
    pub fn ecall(&mut self, machine: &mut Guest) -> (r: Result<Ecall, SyscallError>)
        ensures
            (final(self)@, final(machine)@, ecall_view(r)) == old(self)@.ecall(old(machine)@),
            old(machine)@.registers[A7 as int] == SYS_VERSION ==> final(machine)@.registers[A0 as int]
                == u64::MAX,
    {
        let number = register(machine, A7);
        if number == SYS_VERSION {
            set_register(machine, A0, u64::MAX);
            Ok(Ecall::Handled)
        } else if number == SYS_LOAD_SCRIPT {
            match self.load_script(machine) {
                Ok(()) => Ok(Ecall::Handled),
                Err(e) => Err(e),
            }
        } else if number == SYS_LOAD_SCRIPT_HASH {
            match self.load_script_hash(machine) {
                Ok(()) => Ok(Ecall::Handled),
                Err(e) => Err(e),
            }
        } else if number == SYS_LOAD_CELL {
            match self.load_cell(machine) {
                Ok(()) => Ok(Ecall::Handled),
                Err(e) => Err(e),
            }
        } else if number == SYS_LOAD_CELL_DATA {
            match self.load_cell_data(machine) {
                Ok(()) => Ok(Ecall::Handled),
                Err(e) => Err(e),
            }
        } else if number == SYS_LOAD_CELL_BY_FIELD {
            match self.load_cell_by_field(machine) {
                Ok(()) => Ok(Ecall::Handled),
                Err(e) => Err(e),
            }
        } else if number == SYS_FIND_OUT_POINT_BY_TYPE {
            match self.find_out_point_by_type(machine) {
                Ok(lookup) => Ok(Ecall::Lookup(lookup)),
                Err(e) => Err(e),
            }
        } else if number == SYS_FIND_CELL_BY_OUT_POINT {
            match self.find_cell_by_out_point(machine) {
                Ok(lookup) => Ok(Ecall::Lookup(lookup)),
                Err(e) => Err(e),
            }
        } else if number == SYS_FIND_CELL_DATA_BY_OUT_POINT {
            match self.find_cell_data_by_out_point(machine) {
                Ok(lookup) => Ok(Ecall::Lookup(lookup)),
                Err(e) => Err(e),
            }
        } else if number == SYS_SET_CONTENT {
            match self.set_content(machine) {
                Ok(()) => Ok(Ecall::Handled),
                Err(e) => Err(e),
            }
        } else if number == SYS_DEBUG {
            self.debug(machine)
        } else {
            Ok(Ecall::Unhandled)
        }
    }
}

/// The refusal for an answer of the chain that holds no cell: the chain
/// could not be asked, or it has no such cell.
pub open spec fn chain_gap<T>(found: Result<Option<T>, String>) -> Option<Refusal> {
    match found {
        Err(message) => Some(Refusal::Chain(message@)),
        Ok(None) => Some(Refusal::CellNotFound),
        Ok(Some(_)) => None,
    }
}

/// The data of a cell that was asked for with its data.
pub open spec fn data_returned(cell: crate::cell::LiveCellView) -> Result<Seq<u8>, Refusal> {
    match cell.data {
        Some(data) => Ok(data),
        None => Err(Refusal::DataNotReturned),
    }
}

/// Serves the second half of `find_out_point_by_type`: hands the out-point of
/// the cell that the chain found to the guest, from its first byte on.
pub fn deliver_out_point(machine: &mut Guest, found: Result<Option<OutPoint>, String>) -> (r:
    Result<(), SyscallError>)
    ensures
        (final(machine)@, result_view(r)) == answer_spec(
            old(machine)@,
            chain_gap(found),
            Ok(out_point_layout(found->Ok_0->0@)),
            0,
        ),
{
    match found {
        Err(message) => Err(SyscallError::Chain(message)),
        Ok(None) => Err(SyscallError::CellNotFound),
        Ok(Some(out_point)) => answer(machine, Ok(out_point.to_bytes()), 0),
    }
}

/// Serves the second half of `find_cell_by_out_point`: hands the output of
/// the cell that the chain found to the guest, from its first byte on.
pub fn deliver_cell(machine: &mut Guest, found: Result<Option<LiveCell>, String>) -> (r: Result<
    (),
    SyscallError,
>)
    ensures
        (final(machine)@, result_view(r)) == answer_spec(
            old(machine)@,
            chain_gap(found),
            Ok(cell_output_layout(found->Ok_0->0@.output)),
            0,
        ),
{
    match found {
        Err(message) => Err(SyscallError::Chain(message)),
        Ok(None) => Err(SyscallError::CellNotFound),
        Ok(Some(cell)) => answer(machine, Ok(cell.output.to_bytes()), 0),
    }
}

/// Serves the second half of `find_cell_data_by_out_point`: hands the data of
/// the cell that the chain found to the guest, from its first byte on.
pub fn deliver_cell_data(machine: &mut Guest, found: Result<Option<LiveCell>, String>) -> (r:
    Result<(), SyscallError>)
    ensures
        (final(machine)@, result_view(r)) == answer_spec(
            old(machine)@,
            chain_gap(found),
            data_returned(found->Ok_0->0@),
            0,
        ),
{
    match found {
        Err(message) => Err(SyscallError::Chain(message)),
        Ok(None) => Err(SyscallError::CellNotFound),
        Ok(Some(cell)) => {
            let late = match cell.data {
                Some(data) => Ok(data),
                None => Err(SyscallError::DataNotReturned),
            };
            answer(machine, late, 0)
        },
    }
}

/// The argument vector of a guest: each argument in lowercase hexadecimal
/// digits, without a prefix.
pub fn argv(args: &Vec<Hex>) -> (entries: Vec<Vec<u8>>)
    ensures
        entries@.len() == args@.len(),
        forall|i: int| 0 <= i < args@.len() ==> (#[trigger] entries@[i])@ == hex_of(args@[i]@),
{
    broadcast use vstd::string::is_ascii_spec_bytes;

    let mut entries: Vec<Vec<u8>> = Vec::new();
    let mut i: usize = 0;
    while i < args.len()
        invariant
            i <= args@.len(),
            entries@.len() == i,
            forall|k: int| 0 <= k < i ==> (#[trigger] entries@[k])@ == hex_of(args@[k]@),
        decreases args@.len() - i,
    {
        let text = hex_encode(args[i].hex.as_slice());
        let digits = text.as_str();
        let entry = digits.as_bytes_vec();
        proof {
            lemma_hex_is_ascii(args@[i as int]@);
            assert(vstd::string::is_ascii(digits));
            assert(entry@ =~= as_codes(text@));
        }
        entries.push(entry);
        i = i + 1;
    }
    entries
}

/// How a run of the machine stopped.
#[derive(Debug)]
pub enum Halt {
    /// The guest exited with this code.
    Exit(i8),
    /// The program could not be loaded; the text is the machine's error.
    LoadFailure(String),
    /// The machine trapped; the text is the machine's error.
    RunFailure(String),
    /// A syscall was refused; the text is the message of the refusal.
    Refusal(String),
}

/// What a `Halt` holds.
pub enum HaltView {
    Exit(i8),
    LoadFailure(Seq<char>),
    RunFailure(Seq<char>),
    Refusal(Seq<char>),
}

impl View for Halt {
    type V = HaltView;

    open spec fn view(&self) -> HaltView {
        match self {
            Halt::Exit(code) => HaltView::Exit(*code),
            Halt::LoadFailure(text) => HaltView::LoadFailure(text@),
            Halt::RunFailure(text) => HaltView::RunFailure(text@),
            Halt::Refusal(text) => HaltView::Refusal(text@),
        }
    }
}

/// The end of an execution, with both sides seen as the contracts see them.
pub open spec fn ending_view(r: Result<Option<Vec<u8>>, Error>) -> Result<
    Option<Seq<u8>>,
    ErrorView,
> {
    match r {
        Ok(Some(bytes)) => Ok(Some(bytes@)),
        Ok(None) => Ok(None),
        Err(e) => Err(e@),
    }
}

/// The end of an execution. An exit with code zero gives what the guest has
/// published, if anything. Any other exit is the script's own failure. A
/// refused syscall fails with the words of the refusal, any other stop of the
/// machine with the machine's words.
pub open spec fn conclude_spec(content: Option<Seq<u8>>, halt: HaltView) -> Result<
    Option<Seq<u8>>,
    ErrorView,
> {
    match halt {
        HaltView::Exit(code) => if code == 0 {
            Ok(content)
        } else {
            Err(ErrorView::Script(code))
        },
        HaltView::LoadFailure(text) => Err(ErrorView::Vm("Failed to load program: "@ + text)),
        HaltView::RunFailure(text) => Err(ErrorView::Vm("Failed to run program: "@ + text)),
        HaltView::Refusal(text) => Err(ErrorView::Vm(text)),
    }
}

impl Context {
    /// Ends the execution.
    pub fn conclude(self, halt: Halt) -> (r: Result<Option<Vec<u8>>, Error>)
        ensures
            ending_view(r) == conclude_spec(self@.content, halt@),
    {
        match halt {
            Halt::Exit(code) => if code == 0 {
                Ok(self.content)
            } else {
                Err(Error::Script(code))
            },
            Halt::LoadFailure(text) => {
                let mut message = String::from_str("Failed to load program: ");
                message.append(text.as_str());
                Err(Error::Vm(message))
            },
            Halt::RunFailure(text) => {
                let mut message = String::from_str("Failed to run program: ");
                message.append(text.as_str());
                Err(Error::Vm(message))
            },
            Halt::Refusal(text) => Err(Error::Vm(text)),
        }
    }
}

} // verus!
