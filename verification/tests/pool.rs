//! Tests of the pool record codec.

use apl_amm::amm::state::{Pool, POOL_LEN};
use apl_amm::program_error::ProgramError;
use apl_amm::pubkey::Pubkey;

fn key(tag: u8) -> Pubkey {
    Pubkey { bytes: [tag; 32] }
}

fn sample_pool() -> Pool {
    Pool {
        token_a: key(1),
        token_b: key(2),
        lp_mint: key(3),
        token_a_vault: key(4),
        token_b_vault: key(5),
        fee_numerator: 25,
        fee_denominator: 10000,
        is_initialized: true,
    }
}

#[test]
fn test_pack_unpack() {
    let pool = sample_pool();

    let mut packed = vec![0u8; POOL_LEN];
    pool.pack_into_slice(&mut packed);
    let unpacked = Pool::unpack_from_slice(&packed).unwrap();
    assert_eq!(pool, unpacked);
}

#[test]
fn unpack_rejects_bad_initialization_byte() {
    let mut packed = Vec::new();
    sample_pool().pack_into_slice(&mut packed);
    packed[164] = 2;
    assert_eq!(
        Pool::unpack_from_slice(&packed),
        Err(ProgramError::InvalidAccountData)
    );
    packed[164] = 255;
    assert_eq!(
        Pool::unpack_from_slice(&packed),
        Err(ProgramError::InvalidAccountData)
    );
}

#[test]
fn unpack_rejects_wrong_length() {
    assert_eq!(
        Pool::unpack_from_slice(&[0u8; 164]),
        Err(ProgramError::InvalidAccountData)
    );
    assert_eq!(
        Pool::unpack_from_slice(&[0u8; 166]),
        Err(ProgramError::InvalidAccountData)
    );
}

#[test]
fn pack_layout_holds_fields_in_order() {
    let mut packed = Vec::new();
    sample_pool().pack_into_slice(&mut packed);
    assert_eq!(packed.len(), 165);
    assert_eq!(&packed[0..32], &[1u8; 32]);
    assert_eq!(&packed[32..64], &[2u8; 32]);
    assert_eq!(&packed[64..96], &[3u8; 32]);
    assert_eq!(&packed[96..128], &[4u8; 32]);
    assert_eq!(&packed[128..160], &[5u8; 32]);
    assert_eq!(&packed[160..162], &25u16.to_le_bytes());
    assert_eq!(&packed[162..164], &10000u16.to_le_bytes());
    assert_eq!(packed[164], 1);
}

#[test]
fn round_trip_keeps_uninitialized_flag() {
    let mut pool = sample_pool();
    pool.is_initialized = false;
    let mut packed = Vec::new();
    pool.pack_into_slice(&mut packed);
    assert_eq!(packed[164], 0);
    assert_eq!(Pool::unpack_from_slice(&packed).unwrap(), pool);
}
