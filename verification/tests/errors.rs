use ssri_runner::error::Error;
use ssri_runner::ssri_vm::SyscallError;
use ssri_runner::text::{decimal_text, signed_decimal_text};

#[test]
fn error_codes_are_fixed() {
    assert_eq!(Error::JsonRpcRequestError.code(), 1000);
    assert_eq!(Error::Encoding("bad").code(), 1001);
    assert_eq!(Error::InvalidRequest("bad").code(), 1002);
    assert_eq!(Error::Script(7).code(), 1003);
    assert_eq!(Error::Vm("trap".to_string()).code(), 1004);
}

#[test]
fn error_messages_go_out_with_the_codes() {
    assert_eq!(Error::JsonRpcRequestError.message(), "");
    assert_eq!(Error::Encoding("not hex").message(), "not hex");
    assert_eq!(Error::InvalidRequest("Cell not found").message(), "Cell not found");
    assert_eq!(Error::Script(7).message(), "Script returns 7");
    assert_eq!(Error::Vm("Script is missing".to_string()).message(), "Script is missing");
}

#[test]
fn script_error_prints_its_code_in_decimal() {
    assert_eq!(Error::Script(1).message(), "Script returns 1");
    assert_eq!(Error::Script(-1).message(), "Script returns -1");
    assert_eq!(Error::Script(127).message(), "Script returns 127");
    assert_eq!(Error::Script(-128).message(), "Script returns -128");
    assert_eq!(Error::Script(10).message(), "Script returns 10");
    assert_eq!(Error::Script(-100).message(), "Script returns -100");
}

#[test]
fn error_descriptions_name_the_kind() {
    assert_eq!(Error::JsonRpcRequestError.to_string(), "JsonRpcRequestError");
    assert_eq!(Error::Encoding("not hex").to_string(), "Encoding error: not hex");
    assert_eq!(
        Error::InvalidRequest("Cell not found").to_string(),
        "Invalid request: Cell not found"
    );
    assert_eq!(Error::Script(-3).to_string(), "Script returns -3");
    assert_eq!(Error::Vm("boom".to_string()).to_string(), "VM error: boom");
}

#[test]
fn decimal_text_matches_the_standard_numerals() {
    for n in [0u64, 1, 9, 10, 11, 99, 100, 101, 2041, 65535, 1_000_000_007, u64::MAX] {
        assert_eq!(decimal_text(n), format!("{}", n));
    }
}

#[test]
fn signed_decimal_text_matches_the_standard_numerals() {
    for n in i8::MIN..=i8::MAX {
        assert_eq!(signed_decimal_text(n), format!("{}", n));
    }
}

#[test]
fn syscall_refusals_carry_their_words() {
    let cases = vec![
        (SyscallError::ScriptMissing, "Script is missing"),
        (SyscallError::CellMissing, "Cell is missing"),
        (SyscallError::InvalidIndexOrSource, "Invalid index or source"),
        (SyscallError::CellDataMissing, "Cell data is missing"),
        (SyscallError::InvalidCellField(7), "Invalid cell field 7"),
        (SyscallError::InvalidCellField(u64::MAX), "Invalid cell field 18446744073709551615"),
        (SyscallError::InvalidTypeScript, "Invalid type script"),
        (SyscallError::CellNotFound, "Cell not found"),
        (SyscallError::Chain("connection refused".to_string()), "connection refused"),
        (SyscallError::WindowOutOfRange, "Result window out of range"),
        (SyscallError::CapacityOverflow, "Occupied capacity overflow"),
        (SyscallError::DataNotReturned, "Cell data was not returned"),
        (SyscallError::InvalidDebugText, "Debug text is not valid UTF-8"),
    ];
    for (refusal, words) in cases {
        assert_eq!(refusal.message().unwrap(), words);
    }
}

#[test]
fn machine_error_has_no_words_of_the_host() {
    assert!(SyscallError::Machine(ckb_vm::Error::MemOutOfBound).message().is_none());
}
