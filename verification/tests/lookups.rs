use ckb_vm::{CoreMachine, DefaultCoreMachine, Memory, SparseMemory, SupportMachine, WXorXMemory};
use ssri_runner::cell::{CellOutput, LiveCell, OutPoint, Script};
use ssri_runner::machine::{Guest, A0, A1, A2, A3, A7, MAX_MEMORY};
use ssri_runner::ssri_vm::{
    deliver_cell, deliver_cell_data, deliver_out_point, Context, Ecall, Lookup, SyscallError,
    SYS_FIND_CELL_BY_OUT_POINT, SYS_FIND_CELL_DATA_BY_OUT_POINT, SYS_FIND_OUT_POINT_BY_TYPE,
};

const BUF: u64 = 0x2000;
const LEN: u64 = 0x1000;
const ASKED: u64 = 0x3000;
const FILL: u8 = 0xee;

fn asking(number: u64, room: u64, asked: &[u8]) -> Guest {
    let isa = ckb_vm::ISA_IMC | ckb_vm::ISA_B | ckb_vm::ISA_MOP | ckb_vm::ISA_A;
    let mut guest = Guest {
        core: DefaultCoreMachine::<u64, WXorXMemory<SparseMemory<u64>>>::new(
            isa,
            ckb_vm::machine::VERSION2,
            u64::MAX,
        ),
    };
    guest.core.memory_mut().store_bytes(BUF, &[FILL; 512]).unwrap();
    guest.core.memory_mut().store_bytes(LEN, &room.to_le_bytes()).unwrap();
    guest.core.memory_mut().store_bytes(ASKED, asked).unwrap();
    guest.core.set_register(A7, number);
    guest.core.set_register(A0, BUF);
    guest.core.set_register(A1, LEN);
    guest.core.set_register(A2, ASKED);
    guest.core.set_register(A3, asked.len() as u64);
    guest
}

fn memory(guest: &mut Guest, addr: u64, len: u64) -> Vec<u8> {
    guest.core.memory_mut().load_bytes(addr, len).unwrap().to_vec()
}

fn room(guest: &mut Guest) -> u64 {
    guest.core.memory_mut().load64(&LEN).unwrap()
}

fn type_script() -> Script {
    Script { code_hash: [0x33; 32], hash_type: 1, args: vec![0xaa, 0xbb, 0xcc] }
}

fn place() -> OutPoint {
    OutPoint { tx_hash: [0x44; 32], index: 0x01020304 }
}

fn live_cell(data: Option<Vec<u8>>) -> LiveCell {
    LiveCell {
        output: CellOutput {
            capacity: 1000,
            lock: Script { code_hash: [0x11; 32], hash_type: 0, args: vec![] },
            type_: Some(type_script()),
        },
        data,
    }
}

fn blank() -> Context {
    Context::new(None, None, None)
}

#[test]
fn find_out_point_by_type_asks_with_the_script_of_the_guest() {
    let mut guest = asking(SYS_FIND_OUT_POINT_BY_TYPE, 0, &type_script().to_bytes());
    let before = guest.core.registers().to_vec();
    match blank().ecall(&mut guest) {
        Ok(Ecall::Lookup(Lookup::OutPointByType(script))) => assert_eq!(script, type_script()),
        other => panic!("{:?}", other),
    }
    assert_eq!(guest.core.registers().to_vec(), before);
    assert_eq!(room(&mut guest), 0);
    assert_eq!(memory(&mut guest, BUF, 64), vec![FILL; 64]);
}

#[test]
fn find_out_point_by_type_refuses_what_is_no_script() {
    let good = type_script().to_bytes();
    let mut truncated = asking(SYS_FIND_OUT_POINT_BY_TYPE, 0, &good[..good.len() - 1]);
    assert!(matches!(blank().ecall(&mut truncated), Err(SyscallError::InvalidTypeScript)));
    let mut empty = asking(SYS_FIND_OUT_POINT_BY_TYPE, 0, &[]);
    assert!(matches!(blank().ecall(&mut empty), Err(SyscallError::InvalidTypeScript)));
    let mut broken = good.clone();
    broken[4] = 20;
    let mut guest = asking(SYS_FIND_OUT_POINT_BY_TYPE, 0, &broken);
    assert!(matches!(blank().ecall(&mut guest), Err(SyscallError::InvalidTypeScript)));
}

#[test]
fn find_out_point_by_type_reads_the_room_first() {
    let mut guest = asking(SYS_FIND_OUT_POINT_BY_TYPE, 0, &[1, 2, 3]);
    guest.core.set_register(A1, MAX_MEMORY - 4);
    assert!(matches!(
        blank().ecall(&mut guest),
        Err(SyscallError::Machine(ckb_vm::Error::MemOutOfBound))
    ));
    let mut beyond = asking(SYS_FIND_OUT_POINT_BY_TYPE, 0, &type_script().to_bytes());
    beyond.core.set_register(A2, MAX_MEMORY - 10);
    assert!(matches!(
        blank().ecall(&mut beyond),
        Err(SyscallError::Machine(ckb_vm::Error::MemOutOfBound))
    ));
}

#[test]
fn find_cell_by_out_point_asks_with_the_out_point_of_the_guest() {
    let mut guest = asking(SYS_FIND_CELL_BY_OUT_POINT, 0, &place().to_bytes());
    guest.core.set_register(A3, 0);
    match blank().ecall(&mut guest) {
        Ok(Ecall::Lookup(Lookup::CellByOutPoint(out_point))) => assert_eq!(out_point, place()),
        other => panic!("{:?}", other),
    }
    let mut with_data = asking(SYS_FIND_CELL_DATA_BY_OUT_POINT, 0, &place().to_bytes());
    match blank().ecall(&mut with_data) {
        Ok(Ecall::Lookup(Lookup::CellDataByOutPoint(out_point))) => {
            assert_eq!(out_point, place())
        }
        other => panic!("{:?}", other),
    }
}

#[test]
fn find_cell_by_out_point_needs_thirty_six_bytes_in_memory() {
    for number in [SYS_FIND_CELL_BY_OUT_POINT, SYS_FIND_CELL_DATA_BY_OUT_POINT] {
        let mut guest = asking(number, 0, &[]);
        guest.core.set_register(A2, MAX_MEMORY - 35);
        assert!(matches!(
            blank().ecall(&mut guest),
            Err(SyscallError::Machine(ckb_vm::Error::MemOutOfBound))
        ));
        guest.core.set_register(A2, MAX_MEMORY - 36);
        assert!(matches!(blank().ecall(&mut guest), Ok(Ecall::Lookup(_))));
        guest.core.set_register(A1, MAX_MEMORY);
        assert!(matches!(
            blank().ecall(&mut guest),
            Err(SyscallError::Machine(ckb_vm::Error::MemOutOfBound))
        ));
    }
}

#[test]
fn deliver_out_point_writes_thirty_six_bytes() {
    let mut guest = asking(SYS_FIND_OUT_POINT_BY_TYPE, 0, &[]);
    deliver_out_point(&mut guest, Ok(Some(place()))).unwrap();
    assert_eq!(room(&mut guest), 36);
    assert_eq!(memory(&mut guest, BUF, 40), vec![FILL; 40]);
    deliver_out_point(&mut guest, Ok(Some(place()))).unwrap();
    let mut expected = vec![0x44; 32];
    expected.extend_from_slice(&[4, 3, 2, 1]);
    assert_eq!(memory(&mut guest, BUF, 36), expected);
    assert_eq!(memory(&mut guest, BUF + 36, 4), vec![FILL; 4]);
}

#[test]
fn deliver_out_point_starts_at_the_first_byte_whatever_a2_holds() {
    let mut guest = asking(SYS_FIND_OUT_POINT_BY_TYPE, 4, &[]);
    guest.core.set_register(A2, 30);
    deliver_out_point(&mut guest, Ok(Some(place()))).unwrap();
    assert_eq!(memory(&mut guest, BUF, 4), vec![0x44; 4]);
}

#[test]
fn deliver_refuses_what_the_chain_did_not_find() {
    let mut guest = asking(SYS_FIND_OUT_POINT_BY_TYPE, 36, &[]);
    assert!(matches!(deliver_out_point(&mut guest, Ok(None)), Err(SyscallError::CellNotFound)));
    assert!(matches!(deliver_cell(&mut guest, Ok(None)), Err(SyscallError::CellNotFound)));
    assert!(matches!(deliver_cell_data(&mut guest, Ok(None)), Err(SyscallError::CellNotFound)));
    assert_eq!(room(&mut guest), 36);
    assert_eq!(memory(&mut guest, BUF, 40), vec![FILL; 40]);
}

#[test]
fn deliver_hands_on_the_words_of_a_chain_failure() {
    let mut guest = asking(SYS_FIND_OUT_POINT_BY_TYPE, 36, &[]);
    guest.core.set_register(A1, MAX_MEMORY);
    let why = "JsonRpcRequestError".to_string();
    match deliver_out_point(&mut guest, Err(why.clone())) {
        Err(SyscallError::Chain(words)) => assert_eq!(words, why),
        other => panic!("{:?}", other),
    }
    match deliver_cell(&mut guest, Err(why.clone())) {
        Err(SyscallError::Chain(words)) => assert_eq!(words, why),
        other => panic!("{:?}", other),
    }
    match deliver_cell_data(&mut guest, Err(why.clone())) {
        Err(SyscallError::Chain(words)) => assert_eq!(words, why),
        other => panic!("{:?}", other),
    }
}

#[test]
fn deliver_cell_writes_the_output() {
    let expected = live_cell(None).output.to_bytes();
    let mut guest = asking(SYS_FIND_CELL_BY_OUT_POINT, 0, &[]);
    deliver_cell(&mut guest, Ok(Some(live_cell(None)))).unwrap();
    assert_eq!(room(&mut guest), expected.len() as u64);
    deliver_cell(&mut guest, Ok(Some(live_cell(Some(vec![1]))))).unwrap();
    assert_eq!(memory(&mut guest, BUF, expected.len() as u64), expected);
}

#[test]
fn deliver_cell_data_writes_the_data() {
    let mut guest = asking(SYS_FIND_CELL_DATA_BY_OUT_POINT, 2, &[]);
    deliver_cell_data(&mut guest, Ok(Some(live_cell(Some(vec![0xca, 0xfe]))))).unwrap();
    assert_eq!(room(&mut guest), 2);
    assert_eq!(memory(&mut guest, BUF, 3), vec![0xca, 0xfe, FILL]);
}

#[test]
fn deliver_cell_data_without_data_is_refused() {
    let mut guest = asking(SYS_FIND_CELL_DATA_BY_OUT_POINT, 2, &[]);
    assert!(matches!(
        deliver_cell_data(&mut guest, Ok(Some(live_cell(None)))),
        Err(SyscallError::DataNotReturned)
    ));
    assert_eq!(room(&mut guest), 2);
}

#[test]
fn deliver_with_more_room_than_result_is_refused() {
    let mut guest = asking(SYS_FIND_CELL_DATA_BY_OUT_POINT, 3, &[]);
    assert!(matches!(
        deliver_cell_data(&mut guest, Ok(Some(live_cell(Some(vec![0xca, 0xfe]))))),
        Err(SyscallError::WindowOutOfRange)
    ));
    assert_eq!(room(&mut guest), 2);
    assert_eq!(memory(&mut guest, BUF, 4), vec![FILL; 4]);
}

#[test]
fn deliver_fails_where_the_room_cannot_be_read() {
    let mut guest = asking(SYS_FIND_CELL_DATA_BY_OUT_POINT, 2, &[]);
    guest.core.set_register(A1, MAX_MEMORY - 1);
    assert!(matches!(
        deliver_cell_data(&mut guest, Ok(Some(live_cell(Some(vec![0xca, 0xfe]))))),
        Err(SyscallError::Machine(ckb_vm::Error::MemOutOfBound))
    ));
}
