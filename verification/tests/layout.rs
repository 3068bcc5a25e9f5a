use clad_core::bytes::{
    i32_to_le_bytes, read_array, read_i32, read_u128, read_u16, read_u32, read_u64,
    u128_to_le_bytes, u32_to_le_bytes,
};
use clad_core::state::globalpool::Globalpool;

fn sample_pool() -> Globalpool {
    Globalpool {
        bump: [254],
        tick_spacing: 64,
        tick_spacing_seed: [64, 0],
        fee_rate: 3000,
        fee_rate_seed: [0xB8, 0x0B],
        protocol_fee_rate: 200,
        liquidity_available: 0x0102030405060708090A0B0C0D0E0F10,
        liquidity_borrowed: 7,
        sqrt_price: 1u128 << 64,
        tick_current_index: -2,
        protocol_fee_owed_a: 1000,
        protocol_fee_owed_b: u64::MAX,
        token_mint_a: [1; 32],
        token_vault_a: [11; 32],
        fee_growth_global_a: u128::MAX,
        token_mint_b: [2; 32],
        token_vault_b: [12; 32],
        fee_growth_global_b: 5,
        inception_time: 1_700_000_000,
        fee_authority: [9; 32],
    }
}

fn expected_bytes(pool: &Globalpool) -> Vec<u8> {
    let mut bytes = Vec::new();
    bytes.extend_from_slice(&pool.bump);
    bytes.extend_from_slice(&pool.tick_spacing.to_le_bytes());
    bytes.extend_from_slice(&pool.tick_spacing_seed);
    bytes.extend_from_slice(&pool.fee_rate.to_le_bytes());
    bytes.extend_from_slice(&pool.fee_rate_seed);
    bytes.extend_from_slice(&pool.protocol_fee_rate.to_le_bytes());
    bytes.extend_from_slice(&pool.liquidity_available.to_le_bytes());
    bytes.extend_from_slice(&pool.liquidity_borrowed.to_le_bytes());
    bytes.extend_from_slice(&pool.sqrt_price.to_le_bytes());
    bytes.extend_from_slice(&pool.tick_current_index.to_le_bytes());
    bytes.extend_from_slice(&pool.protocol_fee_owed_a.to_le_bytes());
    bytes.extend_from_slice(&pool.protocol_fee_owed_b.to_le_bytes());
    bytes.extend_from_slice(&pool.token_mint_a);
    bytes.extend_from_slice(&pool.token_vault_a);
    bytes.extend_from_slice(&pool.fee_growth_global_a.to_le_bytes());
    bytes.extend_from_slice(&pool.token_mint_b);
    bytes.extend_from_slice(&pool.token_vault_b);
    bytes.extend_from_slice(&pool.fee_growth_global_b.to_le_bytes());
    bytes.extend_from_slice(&pool.inception_time.to_le_bytes());
    bytes.extend_from_slice(&pool.fee_authority);
    bytes
}

#[test]
fn pool_is_stored_field_by_field_in_declaration_order() {
    let pool = sample_pool();
    let bytes = pool.to_bytes();
    assert_eq!(bytes.len(), 279);
    assert_eq!(Globalpool::ENCODED_LEN, 279);
    assert_eq!(bytes, expected_bytes(&pool));
    assert_eq!(bytes[0], 254);
    assert_eq!(&bytes[1..3], &[64, 0]);
    assert_eq!(&bytes[5..7], &[0xB8, 0x0B]);
    assert_eq!(&bytes[11..27], &[16, 15, 14, 13, 12, 11, 10, 9, 8, 7, 6, 5, 4, 3, 2, 1]);
    assert_eq!(&bytes[59..63], &[0xFE, 0xFF, 0xFF, 0xFF]);
    assert_eq!(&bytes[79..111], &[1; 32]);
    assert_eq!(&bytes[247..279], &[9; 32]);
}

#[test]
fn empty_pool_is_stored_as_zeroes() {
    assert_eq!(Globalpool::default().to_bytes(), vec![0u8; 279]);
    assert_eq!(Globalpool::from_bytes(&[0u8; 279]), Some(Globalpool::default()));
}

#[test]
fn stored_pool_reads_back_as_written() {
    let pool = sample_pool();
    assert_eq!(Globalpool::from_bytes(&pool.to_bytes()), Some(pool));
    let mut other = pool;
    other.tick_current_index = i32::MIN;
    other.liquidity_borrowed = u128::MAX;
    other.inception_time = 0;
    assert_eq!(Globalpool::from_bytes(&other.to_bytes()), Some(other));
    assert_ne!(other.to_bytes(), pool.to_bytes());
}

#[test]
fn reading_ignores_the_reserved_bytes_behind_the_pool() {
    let pool = sample_pool();
    let mut account = pool.to_bytes();
    account.extend_from_slice(&[0xAA; 384]);
    assert_eq!(Globalpool::RESERVED_LEN, 384);
    assert_eq!(Globalpool::from_bytes(&account), Some(pool));
}

#[test]
fn reading_needs_all_bytes_of_a_pool() {
    let bytes = sample_pool().to_bytes();
    assert_eq!(Globalpool::from_bytes(&bytes[..278]), None);
    assert_eq!(Globalpool::from_bytes(&[]), None);
}

#[test]
fn integers_are_written_lowest_byte_first() {
    assert_eq!(u32_to_le_bytes(0x01020304), [4, 3, 2, 1]);
    assert_eq!(u32_to_le_bytes(u32::MAX), u32::MAX.to_le_bytes());
    assert_eq!(i32_to_le_bytes(0), [0; 4]);
    assert_eq!(i32_to_le_bytes(-1), [255; 4]);
    assert_eq!(i32_to_le_bytes(-443636), (-443636i32).to_le_bytes());
    assert_eq!(i32_to_le_bytes(i32::MIN), i32::MIN.to_le_bytes());
    assert_eq!(i32_to_le_bytes(i32::MAX), i32::MAX.to_le_bytes());
    assert_eq!(
        u128_to_le_bytes(0x0102030405060708090A0B0C0D0E0F10),
        [16, 15, 14, 13, 12, 11, 10, 9, 8, 7, 6, 5, 4, 3, 2, 1]
    );
    assert_eq!(u128_to_le_bytes(u128::MAX), [255; 16]);
}

#[test]
fn integers_are_read_lowest_byte_first() {
    let data: Vec<u8> = (1..=40).collect();
    assert_eq!(read_u16(&data, 0), 0x0201);
    assert_eq!(read_u16(&data, 38), 0x2827);
    assert_eq!(read_u32(&data, 1), 0x05040302);
    assert_eq!(read_u64(&data, 2), u64::from_le_bytes([3, 4, 5, 6, 7, 8, 9, 10]));
    assert_eq!(
        read_u128(&data, 24),
        u128::from_le_bytes([25, 26, 27, 28, 29, 30, 31, 32, 33, 34, 35, 36, 37, 38, 39, 40])
    );
    assert_eq!(read_i32(&data, 0), 0x04030201);
    assert_eq!(read_i32(&[0xFE, 0xFF, 0xFF, 0xFF], 0), -2);
    assert_eq!(read_i32(&[0, 0, 0, 0x80], 0), i32::MIN);
    assert_eq!(read_i32(&[0xFF, 0xFF, 0xFF, 0x7F], 0), i32::MAX);
    assert_eq!(read_array::<3>(&data, 5), [6, 7, 8]);
    assert_eq!(read_array::<0>(&data, 40), [0u8; 0]);
}
