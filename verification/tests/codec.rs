use echo_buffer::error::EchoError;
use echo_buffer::state::{AuthorizedBufferHeader, VendingMachineBufferHeader, AUTH_BUFF_HEADER_SIZE, VENDING_MACHINE_BUFF_HEADER_SIZE};

#[test]
fn header_sizes_are_nine_bytes() {
    assert_eq!(AUTH_BUFF_HEADER_SIZE, 9);
    assert_eq!(VENDING_MACHINE_BUFF_HEADER_SIZE, 9);
}

#[test]
fn encode_yields_exact_wire_bytes() {
    let h = AuthorizedBufferHeader { bump_seed: 7, buffer_seed: 1 };
    let bytes = h.encode();
    assert_eq!(bytes, vec![7, 1, 0, 0, 0, 0, 0, 0, 0]);
}

#[test]
fn encode_is_little_endian() {
    let h = AuthorizedBufferHeader { bump_seed: 255, buffer_seed: 0x0102030405060708 };
    let bytes = h.encode();
    assert_eq!(bytes, vec![255, 0x08, 0x07, 0x06, 0x05, 0x04, 0x03, 0x02, 0x01]);
}

#[test]
fn decode_reads_exact_wire_bytes() {
    let bytes = [254u8, 42, 0, 0, 0, 0, 0, 0, 0];
    let h = AuthorizedBufferHeader::decode(&bytes);
    assert_eq!(h.bump_seed, 254);
    assert_eq!(h.buffer_seed, 42);
}

#[test]
fn decode_ignores_payload_beyond_header() {
    let mut bytes = vec![9u8, 1, 0, 0, 0, 0, 0, 0, 0];
    bytes.extend_from_slice(&[0xAB; 91]);
    let h = AuthorizedBufferHeader::decode(&bytes);
    assert_eq!(h.bump_seed, 9);
    assert_eq!(h.buffer_seed, 1);
}

#[test]
fn roundtrip_preserves_header() {
    let cases: Vec<(u8, u64)> = vec![
        (0, 0),
        (255, u64::MAX),
        (255, 42),
        (1, 0x8000000000000000),
        (128, 256),
    ];
    for (bump_seed, buffer_seed) in cases {
        let h = AuthorizedBufferHeader { bump_seed, buffer_seed };
        let bytes = h.encode();
        assert_eq!(bytes.len(), AUTH_BUFF_HEADER_SIZE);
        let back = AuthorizedBufferHeader::decode(&bytes);
        assert_eq!(back, h);
    }
}

#[test]
fn vending_machine_header_holds_its_fields() {
    let h = VendingMachineBufferHeader { bump_seed: 3, price: 1000 };
    assert_eq!(h.bump_seed, 3);
    assert_eq!(h.price, 1000);
}

#[test]
fn error_codes_are_stable() {
    assert_eq!(EchoError::AccountMustBeWritable.code(), 0);
    assert_eq!(EchoError::AccountNotInitialized.code(), 1);
    assert_eq!(EchoError::AccountHasNonZeroData.code(), 2);
    assert_eq!(EchoError::MissingRequiredSignature.code(), 3);
    assert_eq!(EchoError::InvalidProgramAddress.code(), 4);
    assert_eq!(EchoError::InvalidAccountAddress.code(), 5);
    assert_eq!(EchoError::InvalidInstructionInput.code(), 6);
    assert_eq!(EchoError::InvalidAccountData.code(), 7);
    assert_eq!(EchoError::DefaultError.code(), 8);
    assert_eq!(EchoError::NotImplemented.code(), 9);
    assert_eq!(EchoError::InsufficientFunds.code(), 10);
}
