//! Tests of the instruction codec.

use apl_amm::amm::error::AmmError;
use apl_amm::amm::instruction::AmmInstruction;
use apl_amm::program_error::ProgramError;

fn invalid_instruction() -> ProgramError {
    AmmError::InvalidInstruction.into()
}

#[test]
fn test_instruction_packing() {
    let check = |instruction: &AmmInstruction| {
        let packed = instruction.pack();
        let unpacked = AmmInstruction::unpack(&packed).unwrap();
        assert_eq!(*instruction, unpacked);
    };

    check(&AmmInstruction::InitializePool {
        fee_numerator: 25,
        fee_denominator: 10000,
    });

    check(&AmmInstruction::AddLiquidity {
        token_a_amount: 1000,
        token_b_amount: 2000,
        min_lp_amount: 500,
    });

    check(&AmmInstruction::RemoveLiquidity {
        lp_amount: 500,
        min_token_a_amount: 900,
        min_token_b_amount: 1800,
    });

    check(&AmmInstruction::Swap {
        amount_in: 1000,
        min_amount_out: 900,
    });
}

#[test]
fn unpack_rejects_empty_buffer() {
    assert_eq!(AmmInstruction::unpack(&[]), Err(invalid_instruction()));
}

#[test]
fn unpack_rejects_unknown_tag() {
    assert_eq!(AmmInstruction::unpack(&[4, 0, 0, 0, 0]), Err(invalid_instruction()));
    assert_eq!(AmmInstruction::unpack(&[255]), Err(invalid_instruction()));
}

#[test]
fn unpack_rejects_truncated_payload() {
    // InitializePool wants four payload bytes
    assert_eq!(AmmInstruction::unpack(&[0, 25, 0]), Err(invalid_instruction()));
    // AddLiquidity and RemoveLiquidity want twenty-four
    assert_eq!(AmmInstruction::unpack(&[1, 1, 2, 3]), Err(invalid_instruction()));
    assert_eq!(AmmInstruction::unpack(&[2; 24]), Err(invalid_instruction()));
    // Swap wants sixteen
    assert_eq!(AmmInstruction::unpack(&[3; 16]), Err(invalid_instruction()));
}

#[test]
fn pack_layout_is_tag_and_little_endian_fields() {
    let packed = AmmInstruction::InitializePool {
        fee_numerator: 0x0102,
        fee_denominator: 0x0304,
    }
    .pack();
    assert_eq!(packed, vec![0, 0x02, 0x01, 0x04, 0x03]);

    let packed = AmmInstruction::Swap {
        amount_in: 1,
        min_amount_out: 2,
    }
    .pack();
    let mut expected = vec![3u8];
    expected.extend_from_slice(&1u64.to_le_bytes());
    expected.extend_from_slice(&2u64.to_le_bytes());
    assert_eq!(packed, expected);
}

#[test]
fn unpack_ignores_trailing_bytes() {
    let mut packed = AmmInstruction::Swap {
        amount_in: 7,
        min_amount_out: 6,
    }
    .pack();
    packed.push(99);
    assert_eq!(
        AmmInstruction::unpack(&packed).unwrap(),
        AmmInstruction::Swap {
            amount_in: 7,
            min_amount_out: 6
        }
    );
}
