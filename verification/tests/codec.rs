use trove_core::error::TroveError;
use trove_core::math::Decimal;
use trove_core::state::pack_bool;
use trove_core::state::pack_decimal;
use trove_core::state::unpack_decimal;
use trove_core::state::InitTroveParams;
use trove_core::state::Pubkey;
use trove_core::state::Trove;
use trove_core::state::PROGRAM_VERSION;
use trove_core::state::TROVE_LEN;

fn key_of(fill: u8) -> Pubkey {
    Pubkey::new(vec![fill; 32])
}

#[test]
fn trove_round_trip() {
    let trove = Trove::new(InitTroveParams {
        owner: key_of(0xab),
        deposited_sol: Decimal::from_scaled_raw(0x0011_2233_4455_6677_8899_aabb_ccdd_eeff),
        borrowed_usd: Decimal::from_scaled_raw(42),
    });
    let mut buffer = vec![0u8; TROVE_LEN];
    trove.pack_into_slice(&mut buffer);
    let decoded = Trove::unpack_from_slice(&buffer).unwrap();
    assert_eq!(decoded.version, PROGRAM_VERSION);
    assert_eq!(decoded.owner.as_bytes(), trove.owner.as_bytes());
    assert_eq!(
        decoded.deposited_sol.to_scaled_raw(),
        0x0011_2233_4455_6677_8899_aabb_ccdd_eeff
    );
    assert_eq!(decoded.borrowed_usd.to_scaled_raw(), 42);
}

#[test]
fn encode_layout_is_fixed_offset() {
    let mut owner_bytes = Vec::new();
    for i in 0..32u8 {
        owner_bytes.push(i);
    }
    let trove = Trove::new(InitTroveParams {
        owner: Pubkey::new(owner_bytes.clone()),
        deposited_sol: Decimal::from_scaled_raw(0x0102),
        borrowed_usd: Decimal::from_scaled_raw(0x0304),
    });
    let mut buffer = vec![0u8; TROVE_LEN];
    trove.pack_into_slice(&mut buffer);

    let mut expected = vec![PROGRAM_VERSION];
    expected.extend_from_slice(&owner_bytes);
    let mut deposited = vec![0x02u8, 0x01];
    deposited.resize(16, 0);
    expected.extend_from_slice(&deposited);
    let mut borrowed = vec![0x04u8, 0x03];
    borrowed.resize(16, 0);
    expected.extend_from_slice(&borrowed);
    assert_eq!(buffer, expected);
}

#[test]
fn pack_preserves_bytes_past_the_record() {
    let trove = Trove::new(InitTroveParams {
        owner: key_of(1),
        deposited_sol: Decimal::from_scaled_raw(0),
        borrowed_usd: Decimal::from_scaled_raw(0),
    });
    let mut buffer = vec![0u8; TROVE_LEN + 5];
    for (i, b) in buffer.iter_mut().enumerate().skip(TROVE_LEN) {
        *b = i as u8;
    }
    let tail: Vec<u8> = buffer[TROVE_LEN..].to_vec();
    trove.pack_into_slice(&mut buffer);
    assert_eq!(&buffer[TROVE_LEN..], &tail[..]);
}

#[test]
fn decode_rejects_newer_version() {
    let mut buffer = vec![0u8; TROVE_LEN];
    buffer[0] = PROGRAM_VERSION + 1;
    assert_eq!(
        Trove::unpack_from_slice(&buffer).unwrap_err(),
        TroveError::AccountParsingError
    );
}

#[test]
fn decode_rejects_short_buffer() {
    let buffer = vec![0u8; TROVE_LEN - 1];
    assert_eq!(
        Trove::unpack_from_slice(&buffer).unwrap_err(),
        TroveError::AccountParsingError
    );
}

#[test]
fn zeroed_slot_decodes_uninitialized() {
    let buffer = vec![0u8; TROVE_LEN];
    let trove = Trove::unpack_from_slice(&buffer).unwrap();
    assert!(!trove.is_initialized());
    assert_eq!(trove.version, 0);
}

#[test]
fn freshly_built_trove_is_initialized() {
    let trove = Trove::new(InitTroveParams {
        owner: key_of(9),
        deposited_sol: Decimal::from_scaled_raw(0),
        borrowed_usd: Decimal::from_scaled_raw(0),
    });
    assert!(trove.is_initialized());
}

#[test]
fn pack_decimal_little_endian() {
    let mut region = vec![0u8; 16];
    pack_decimal(Decimal::from_scaled_raw(0x0102_0304), &mut region);
    let mut expected = vec![0x04u8, 0x03, 0x02, 0x01];
    expected.resize(16, 0);
    assert_eq!(region, expected);
}

#[test]
fn decimal_bytes_round_trip() {
    let raw: u128 = 0xdead_beef_cafe_f00d_0123_4567_89ab_cdef;
    let mut region = vec![0u8; 16];
    pack_decimal(Decimal::from_scaled_raw(raw), &mut region);
    assert_eq!(unpack_decimal(&region).to_scaled_raw(), raw);
}

#[test]
fn pack_bool_both_values() {
    let mut region = vec![0u8; 1];
    pack_bool(true, &mut region);
    assert_eq!(region, vec![1u8]);
    pack_bool(false, &mut region);
    assert_eq!(region, vec![0u8]);
}

#[test]
fn pubkey_equals_by_bytes() {
    assert!(key_of(5).equals(&key_of(5)));
    assert!(!key_of(5).equals(&key_of(6)));
}
