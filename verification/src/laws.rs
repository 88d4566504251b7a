//! What holds of the syscalls whatever the guest does, proved from the
//! functions that say what each syscall does.

use crate::cell::{
    blake2b_256, cell_output_layout, optional_script_layout, script_hash, script_layout,
};
use crate::error::ErrorView;
use crate::machine::{overwrite, word_at, GuestView, A0, A1, A2, A5, A7};
use crate::ssri_vm::{
    answer_spec, cell_field_bytes, conclude_spec, names_group_input, CellField, ContextView,
    EcallView, HaltView, Refusal, Served, SYS_SET_CONTENT,
};
use vstd::bytes::{lemma_auto_spec_u64_to_from_le_bytes, spec_u64_to_le_bytes};
use vstd::prelude::*;

verus! {

/// The number stored as a word is the number read back from there.
pub proof fn lemma_word_stored_is_word_read(memory: Seq<u8>, addr: int, value: u64)
    requires
        0 <= addr,
        addr + 8 <= memory.len(),
    ensures
        word_at(overwrite(memory, addr, spec_u64_to_le_bytes(value)), addr) == value,
{
    lemma_auto_spec_u64_to_from_le_bytes();
    let bytes = spec_u64_to_le_bytes(value);
    assert(bytes.len() == 8);
    assert(overwrite(memory, addr, bytes).subrange(addr, addr + 8) =~= bytes);
}

/// A guest that offers no room learns the true size of the result and gets
/// no byte of it. The size is written where `A1` points, and no other byte of
/// the memory changes. Where the size cannot be written, the call fails and
/// nothing changes.
pub proof fn law_no_room_gives_the_size_alone(guest: GuestView, data: Seq<u8>, offset: u64)
    requires
        data.len() <= u64::MAX,
        guest.readable(guest.registers[A1 as int] as int, 8),
        word_at(guest.memory, guest.registers[A1 as int] as int) == 0,
    ensures
        ({
            let len_addr = guest.registers[A1 as int] as int;
            let (after, r) = answer_spec(guest, None, Ok(data), offset);
            if guest.writable(len_addr, 8) {
                &&& r == Ok::<(), Refusal>(())
                &&& word_at(after.memory, len_addr) == data.len()
                &&& after.memory.len() == guest.memory.len()
                &&& forall|i: int|
                    0 <= i < guest.memory.len() && !(len_addr <= i < len_addr + 8)
                        ==> after.memory[i] == guest.memory[i]
                &&& after.registers == guest.registers
                &&& after.sealed == guest.sealed
            } else {
                r == Err::<(), Refusal>(Refusal::Machine) && after == guest
            }
        }),
{
    let len_addr = guest.registers[A1 as int] as int;
    if guest.writable(len_addr, 8) {
        lemma_word_stored_is_word_read(guest.memory, len_addr, data.len() as u64);
        lemma_auto_spec_u64_to_from_le_bytes();
    }
}

/// The guest's memory can take `data`: its length where `A1` points, and
/// its bytes where `A0` points.
pub open spec fn has_room_for(guest: GuestView, data: Seq<u8>) -> bool {
    &&& guest.writable(guest.registers[A1 as int] as int, 8)
    &&& data.len() == 0 || guest.writable(guest.registers[A0 as int] as int, data.len() as int)
}

/// Two calls in a row, `first` on `guest` and `second` on what `first` left,
/// hand over `data` in full. Where `data` is owed and the memory can take it,
/// both calls succeed. Where both succeed, the true size stands where `A1`
/// pointed after the first, and the bytes stand where `A0` points after the
/// second.
pub open spec fn handed_over(
    guest: GuestView,
    first: Served,
    second: Served,
    owed: bool,
    data: Seq<u8>,
) -> bool {
    &&& owed && has_room_for(guest, data) ==> first.1 is Ok && second.1 is Ok
    &&& first.1 is Ok && second.1 is Ok ==> {
        &&& owed
        &&& word_at(first.0.memory, guest.registers[A1 as int] as int) == data.len()
        &&& second.0.bytes_at(guest.registers[A0 as int] as int, data.len() as int) == data
    }
}

/// A guest that first offers no room, and then calls again with the room
/// that the first call reported, finds the whole result where `A0` points.
/// Both calls succeed wherever the length and the bytes can be written. It
/// does not matter whether the two places overlap: the bytes are written
/// last.
pub proof fn law_room_as_reported_gives_the_result(
    guest: GuestView,
    early: Option<Refusal>,
    late: Result<Seq<u8>, Refusal>,
)
    requires
        late is Ok ==> late->Ok_0.len() <= u64::MAX,
        word_at(guest.memory, guest.registers[A1 as int] as int) == 0,
    ensures
        handed_over(
            guest,
            answer_spec(guest, early, late, 0),
            answer_spec(answer_spec(guest, early, late, 0).0, early, late, 0),
            early is None && late is Ok,
            late->Ok_0,
        ),
{
    let len_addr = guest.registers[A1 as int] as int;
    let addr = guest.registers[A0 as int] as int;
    let first = answer_spec(guest, early, late, 0);
    let second = answer_spec(first.0, early, late, 0);
    if early is None && late is Ok && guest.writable(len_addr, 8) {
        let data = late->Ok_0;
        lemma_auto_spec_u64_to_from_le_bytes();
        lemma_word_stored_is_word_read(guest.memory, len_addr, data.len() as u64);
        assert(first.0.memory == overwrite(
            guest.memory,
            len_addr,
            spec_u64_to_le_bytes(data.len() as u64),
        ));
        assert(first.1 is Ok);
        assert(word_at(first.0.memory, len_addr) == data.len());
        assert(first.0.writable(len_addr, 8));
        if data.len() > 0 {
            if guest.writable(addr, data.len() as int) {
                assert(first.0.writable(addr, data.len() as int));
                assert(second.1 is Ok);
            }
            if second.1 is Ok {
                assert(data.subrange(0, data.len() as int) =~= data);
                assert(second.0.memory.subrange(addr, addr + data.len()) =~= data);
            }
        } else {
            assert(second.1 is Ok);
            assert(data =~= Seq::<u8>::empty());
        }
    }
}

/// Every syscall that reads the script or the cell follows the output
/// convention: called with no room and then with the room that was reported,
/// from the first byte on, it hands over what it is there to hand over, and
/// succeeds in it wherever the guest's memory can take the result.
pub proof fn law_loads_hand_over_their_result(context: ContextView, guest: GuestView)
    requires
        word_at(guest.memory, guest.registers[A1 as int] as int) == 0,
        guest.registers[A2 as int] == 0,
        context.script is Some ==> script_layout(context.script->0).len() <= u64::MAX
            && script_hash(context.script->0).len() <= u64::MAX,
        context.cell is Some ==> cell_output_layout(context.cell->0.cell_output).len()
            <= u64::MAX,
        context.cell is Some && context.cell->0.hex_data is Some
            ==> context.cell->0.hex_data->0.len() <= u64::MAX,
        context.cell is Some && cell_field_bytes(
            context.cell->0,
            guest.registers[A5 as int],
        ) is Ok ==> cell_field_bytes(context.cell->0, guest.registers[A5 as int])->Ok_0.len()
            <= u64::MAX,
    ensures
        handed_over(
            guest,
            context.load_script(guest),
            context.load_script(context.load_script(guest).0),
            context.script is Some,
            script_layout(context.script->0),
        ),
        handed_over(
            guest,
            context.load_script_hash(guest),
            context.load_script_hash(context.load_script_hash(guest).0),
            context.script is Some,
            script_hash(context.script->0),
        ),
        handed_over(
            guest,
            context.load_cell(guest),
            context.load_cell(context.load_cell(guest).0),
            context.cell is Some && names_group_input(guest),
            cell_output_layout(context.cell->0.cell_output),
        ),
        handed_over(
            guest,
            context.load_cell_data(guest),
            context.load_cell_data(context.load_cell_data(guest).0),
            context.cell is Some && names_group_input(guest) && context.cell->0.hex_data is Some,
            context.cell->0.hex_data->0,
        ),
        handed_over(
            guest,
            context.load_cell_by_field(guest),
            context.load_cell_by_field(context.load_cell_by_field(guest).0),
            context.cell is Some && names_group_input(guest) && cell_field_bytes(
                context.cell->0,
                guest.registers[A5 as int],
            ) is Ok,
            cell_field_bytes(context.cell->0, guest.registers[A5 as int])->Ok_0,
        ),
{
    if context.script is Some {
        law_room_as_reported_gives_the_result(
            guest,
            context.script_gap(),
            Ok(script_layout(context.script->0)),
        );
        law_room_as_reported_gives_the_result(
            guest,
            context.script_gap(),
            Ok(script_hash(context.script->0)),
        );
    }
    if context.cell is Some && names_group_input(guest) {
        law_room_as_reported_gives_the_result(
            guest,
            context.cell_gap(),
            Ok(cell_output_layout(context.cell->0.cell_output)),
        );
        law_room_as_reported_gives_the_result(
            guest,
            context.cell_gap(),
            match context.cell->0.hex_data {
                Some(data) => Ok(data),
                None => Err(Refusal::CellDataMissing),
            },
        );
        law_room_as_reported_gives_the_result(
            guest,
            context.cell_gap(),
            cell_field_bytes(context.cell->0, guest.registers[A5 as int]),
        );
    }
}

/// Only the first cell of the input group can be read: a call that names
/// another index or another source fails.
pub proof fn law_only_the_group_input_is_read(context: ContextView, guest: GuestView)
    requires
        !names_group_input(guest),
    ensures
        context.load_cell(guest).1 is Err,
        context.load_cell_data(guest).1 is Err,
        context.load_cell_by_field(guest).1 is Err,
        context.load_cell(guest).0 == guest,
        context.load_cell_data(guest).0 == guest,
        context.load_cell_by_field(guest).0 == guest,
        context.cell is Some && guest.readable(guest.registers[A1 as int] as int, 8) ==> {
            &&& context.load_cell(guest).1 == Err::<(), Refusal>(Refusal::InvalidIndexOrSource)
            &&& context.load_cell_data(guest).1 == Err::<(), Refusal>(
                Refusal::InvalidIndexOrSource,
            )
            &&& context.load_cell_by_field(guest).1 == Err::<(), Refusal>(
                Refusal::InvalidIndexOrSource,
            )
        },
{
}

/// A request that set no script cannot have its script read, and one that
/// set no cell cannot have its cell read. The call fails, the machine stays as
/// it was, and the words of the failure, which are the words that the request
/// fails with, say what is missing.
pub proof fn law_missing_context_is_named(
    context: ContextView,
    guest: GuestView,
    content: Option<Seq<u8>>,
)
    ensures
        context.script is None ==> {
            &&& context.load_script(guest) == (guest, Err::<(), Refusal>(Refusal::ScriptMissing))
            &&& context.load_script_hash(guest) == (
                guest,
                Err::<(), Refusal>(Refusal::ScriptMissing),
            )
        },
        context.cell is None ==> {
            &&& context.load_cell(guest) == (guest, Err::<(), Refusal>(Refusal::CellMissing))
            &&& context.load_cell_data(guest) == (guest, Err::<(), Refusal>(Refusal::CellMissing))
            &&& context.load_cell_by_field(guest) == (
                guest,
                Err::<(), Refusal>(Refusal::CellMissing),
            )
        },
        Refusal::ScriptMissing.message() == Some("Script is missing"@),
        Refusal::CellMissing.message() == Some("Cell is missing"@),
        conclude_spec(content, HaltView::Refusal("Script is missing"@)) == Err::<
            Option<Seq<u8>>,
            ErrorView,
        >(ErrorView::Vm("Script is missing"@)),
        conclude_spec(content, HaltView::Refusal("Cell is missing"@)) == Err::<
            Option<Seq<u8>>,
            ErrorView,
        >(ErrorView::Vm("Cell is missing"@)),
{
}

/// A cell without a type has an empty type and an empty type hash: the guest
/// gets no bytes, and no failure.
pub proof fn law_absent_type_is_empty(cell: crate::types::CellView)
    requires
        cell.cell_output.type_ is None,
    ensures
        cell_field_bytes(cell, CellField::Type.spec_value()) == Ok::<Seq<u8>, Refusal>(
            Seq::empty(),
        ),
        cell_field_bytes(cell, CellField::TypeHash.spec_value()) == Ok::<Seq<u8>, Refusal>(
            Seq::empty(),
        ),
{
    assert(optional_script_layout(cell.cell_output.type_) == Seq::<u8>::empty());
}

/// The data hash of a cell is the digest of its data as it is: of the same
/// bytes that `load_cell_data` hands over.
pub proof fn law_data_hash_is_of_the_data(context: ContextView, guest: GuestView)
    requires
        context.cell is Some,
        context.cell->0.hex_data is Some,
    ensures
        cell_field_bytes(context.cell->0, CellField::DataHash.spec_value()) == Ok::<
            Seq<u8>,
            Refusal,
        >(blake2b_256(context.cell->0.hex_data->0)),
        context.load_cell_data(guest) == answer_spec(
            guest,
            None,
            if names_group_input(guest) {
                Ok(context.cell->0.hex_data->0)
            } else {
                Err(Refusal::InvalidIndexOrSource)
            },
            guest.registers[A2 as int],
        ),
{
}

/// The published result is what the last `set_content` set. With none
/// called, an exit with code zero gives nothing. After one, it gives the
/// bytes of that one. After two, it gives the bytes of the second.
pub proof fn law_last_content_wins(context: ContextView, first: GuestView, second: GuestView)
    ensures
        context.content is None ==> conclude_spec(context.content, HaltView::Exit(0)) == Ok::<
            Option<Seq<u8>>,
            ErrorView,
        >(None),
        ({
            let once = context.set_content(first);
            once.1 is Ok ==> conclude_spec(once.0.content, HaltView::Exit(0)) == Ok::<
                Option<Seq<u8>>,
                ErrorView,
            >(
                Some(
                    first.bytes_at(
                        first.registers[A0 as int] as int,
                        word_at(first.memory, first.registers[A1 as int] as int) as int,
                    ),
                ),
            )
        }),
        ({
            let once = context.set_content(first);
            let twice = once.0.set_content(second);
            once.1 is Ok && twice.1 is Ok ==> conclude_spec(twice.0.content, HaltView::Exit(0))
                == Ok::<Option<Seq<u8>>, ErrorView>(
                Some(
                    second.bytes_at(
                        second.registers[A0 as int] as int,
                        word_at(second.memory, second.registers[A1 as int] as int) as int,
                    ),
                ),
            )
        }),
{
}

/// No syscall but `set_content` touches the context, and a `set_content`
/// that fails leaves it as it was.
pub proof fn law_only_set_content_publishes(context: ContextView, guest: GuestView)
    ensures
        guest.registers[A7 as int] != SYS_SET_CONTENT ==> context.ecall(guest).0 == context,
        context.ecall(guest).2 is Err ==> context.ecall(guest).0 == context,
        context.ecall(guest).2 == Ok::<EcallView, Refusal>(EcallView::Unhandled)
            ==> context.ecall(guest).1 == guest,
{
}

/// A guest that exits with another code than zero fails with that code,
/// whatever it has published.
pub proof fn law_exit_code_is_the_failure(content: Option<Seq<u8>>, code: i8)
    requires
        code != 0,
    ensures
        conclude_spec(content, HaltView::Exit(code)) == Err::<Option<Seq<u8>>, ErrorView>(
            ErrorView::Script(code),
        ),
{
}

} // verus!
