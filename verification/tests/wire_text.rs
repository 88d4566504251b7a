use ssri_runner::error::Error;
use ssri_runner::ssri_vm::argv;
use ssri_runner::types::{deserialize, serialize, Hex, MALFORMED_HEX};

fn is_malformed(r: Result<Vec<u8>, Error>) -> bool {
    matches!(r, Err(Error::Encoding(message)) if message == MALFORMED_HEX)
}

#[test]
fn serialize_writes_prefix_and_lowercase_digits() {
    assert_eq!(serialize(&[0xde, 0xad, 0xbe, 0xef]), "0xdeadbeef");
    assert_eq!(serialize(&[0x00, 0x0f, 0xf0, 0xff, 0x9a]), "0x000ff0ff9a");
}

#[test]
fn serialize_of_nothing_is_the_prefix() {
    assert_eq!(serialize(&[]), "0x");
}

#[test]
fn serialize_writes_every_byte_value() {
    let all: Vec<u8> = (0..=255u8).collect();
    let text = serialize(&all);
    assert_eq!(text.len(), 2 + 512);
    assert_eq!(text, format!("0x{}", hex::encode(&all)));
    assert_eq!(&text[2..6], "0001");
    assert_eq!(&text[text.len() - 4..], "feff");
}

#[test]
fn deserialize_reads_both_cases() {
    assert_eq!(deserialize("0xdeadbeef").unwrap(), vec![0xde, 0xad, 0xbe, 0xef]);
    assert_eq!(deserialize("0xDEADBEEF").unwrap(), vec![0xde, 0xad, 0xbe, 0xef]);
    assert_eq!(deserialize("0xDeAdBeEf").unwrap(), vec![0xde, 0xad, 0xbe, 0xef]);
    assert_eq!(deserialize("0x0123456789abcdef").unwrap(), vec![
        0x01, 0x23, 0x45, 0x67, 0x89, 0xab, 0xcd, 0xef
    ]);
}

#[test]
fn deserialize_of_the_prefix_is_nothing() {
    assert_eq!(deserialize("0x").unwrap(), Vec::<u8>::new());
}

#[test]
fn deserialize_refuses_text_without_prefix() {
    assert!(is_malformed(deserialize("deadbeef")));
    assert!(is_malformed(deserialize("")));
    assert!(is_malformed(deserialize("0")));
    assert!(is_malformed(deserialize("x0dead")));
    assert!(is_malformed(deserialize("0Xdead")));
    assert!(is_malformed(deserialize(" 0xdead")));
}

#[test]
fn deserialize_refuses_what_is_no_digit() {
    assert!(is_malformed(deserialize("0xdeadbeeg")));
    assert!(is_malformed(deserialize("0xzz")));
    assert!(is_malformed(deserialize("0x12 4")));
    assert!(is_malformed(deserialize("0x/0")));
    assert!(is_malformed(deserialize("0x:0")));
    assert!(is_malformed(deserialize("0x@0")));
    assert!(is_malformed(deserialize("0xG0")));
    assert!(is_malformed(deserialize("0x`0")));
    assert!(is_malformed(deserialize("0x0x")));
}

#[test]
fn deserialize_refuses_an_odd_number_of_digits() {
    assert!(is_malformed(deserialize("0xabc")));
    assert!(is_malformed(deserialize("0xa")));
}

#[test]
fn deserialize_refuses_text_beyond_ascii() {
    assert!(is_malformed(deserialize("0x\u{e9}\u{e9}")));
    assert!(is_malformed(deserialize("0xa\u{e9}")));
    assert!(is_malformed(deserialize("\u{ff10}xab")));
    assert!(is_malformed(deserialize("0xab\u{1f600}")));
}

#[test]
fn bytes_survive_writing_and_reading() {
    let samples: Vec<Vec<u8>> = vec![
        vec![],
        vec![0],
        vec![255],
        vec![1, 2, 3, 15, 16],
        (0..=255u8).collect(),
        vec![0xa5; 1000],
    ];
    for sample in samples {
        assert_eq!(deserialize(&serialize(&sample)).unwrap(), sample);
    }
}

#[test]
fn text_survives_reading_and_writing_in_lowercase() {
    let samples = ["0x", "0xABCDEF", "0xabcdef", "0x00FFaaBB0123", "0xDeadBeef"];
    for sample in samples {
        let data = deserialize(sample).unwrap();
        assert_eq!(serialize(&data), sample.to_lowercase());
    }
}

#[test]
fn hex_to_string_is_the_wire_text() {
    assert_eq!(Hex::new(vec![0xca, 0xfe]).to_string(), "0xcafe");
    assert_eq!(Hex::new(vec![]).to_string(), "0x");
    assert_eq!(Hex { hex: vec![0, 1] }.to_string(), "0x0001");
}

#[test]
fn hex_from_string_reads_or_refuses() {
    assert_eq!(Hex::from_string("0xCAFE").unwrap().hex, vec![0xca, 0xfe]);
    assert_eq!(Hex::from_string("0x").unwrap().hex, Vec::<u8>::new());
    assert!(matches!(
        Hex::from_string("cafe"),
        Err(Error::Encoding(message)) if message == MALFORMED_HEX
    ));
    assert!(matches!(
        Hex::from_string("0xcaf"),
        Err(Error::Encoding(message)) if message == MALFORMED_HEX
    ));
    assert!(matches!(
        Hex::from_string("0xcafg"),
        Err(Error::Encoding(message)) if message == MALFORMED_HEX
    ));
}

#[test]
fn hex_parse_reads_wire_text() {
    assert_eq!(Hex::parse("0x00ff10").hex, vec![0x00, 0xff, 0x10]);
    assert_eq!(Hex::parse("0xDEADbeef").hex, vec![0xde, 0xad, 0xbe, 0xef]);
}

#[test]
fn hex_round_trip_through_both_directions() {
    let hex = Hex::new(vec![9, 8, 7, 0xab]);
    let text = hex.to_string();
    assert_eq!(text, "0x090807ab");
    assert_eq!(Hex::from_string(&text).unwrap().hex, hex.hex);
}

#[test]
fn argv_is_lowercase_hex_without_prefix() {
    let args = vec![Hex::new(vec![0xde, 0xad, 0xbe, 0xef]), Hex::new(vec![]), Hex::new(vec![
        0x00, 0x0a, 0xff,
    ])];
    let entries = argv(&args);
    assert_eq!(entries.len(), 3);
    assert_eq!(entries[0], b"deadbeef".to_vec());
    assert_eq!(entries[1], Vec::<u8>::new());
    assert_eq!(entries[2], b"000aff".to_vec());
}

#[test]
fn argv_of_no_arguments_is_empty() {
    assert!(argv(&Vec::new()).is_empty());
}

#[test]
fn argv_entries_are_printable_and_twice_as_long() {
    let all: Vec<u8> = (0..=255u8).collect();
    let entries = argv(&vec![Hex::new(all.clone())]);
    assert_eq!(entries[0].len(), 512);
    assert!(entries[0].iter().all(|c| c.is_ascii_digit() || (b'a'..=b'f').contains(c)));
    assert_eq!(hex::decode(&entries[0]).unwrap(), all);
}
