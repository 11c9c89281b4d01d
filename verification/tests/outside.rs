use mango::builders::{deposit, init_margin_account};
use mango::dex::{
    unpack_dex_new_order_v3, CancelOrderInstructionV2, NewOrderInstructionV3, OrderType,
    SelfTradeBehavior, Side,
};
use mango::fixed_point::U64F64;
use mango::instruction::MangoInstruction;
use mango::request::Pubkey;
use std::num::NonZeroU64;

fn dex_side(side: Side) -> serum_dex::matching::Side {
    match side {
        Side::Bid => serum_dex::matching::Side::Bid,
        Side::Ask => serum_dex::matching::Side::Ask,
    }
}

fn dex_behavior(behavior: SelfTradeBehavior) -> serum_dex::instruction::SelfTradeBehavior {
    match behavior {
        SelfTradeBehavior::DecrementTake => {
            serum_dex::instruction::SelfTradeBehavior::DecrementTake
        }
        SelfTradeBehavior::CancelProvide => {
            serum_dex::instruction::SelfTradeBehavior::CancelProvide
        }
        SelfTradeBehavior::AbortTransaction => {
            serum_dex::instruction::SelfTradeBehavior::AbortTransaction
        }
    }
}

fn dex_order_type(order_type: OrderType) -> serum_dex::matching::OrderType {
    match order_type {
        OrderType::Limit => serum_dex::matching::OrderType::Limit,
        OrderType::ImmediateOrCancel => serum_dex::matching::OrderType::ImmediateOrCancel,
        OrderType::PostOnly => serum_dex::matching::OrderType::PostOnly,
    }
}

fn dex_order(order: &NewOrderInstructionV3) -> serum_dex::instruction::NewOrderInstructionV3 {
    serum_dex::instruction::NewOrderInstructionV3 {
        side: dex_side(order.side),
        limit_price: NonZeroU64::new(order.limit_price).unwrap(),
        max_coin_qty: NonZeroU64::new(order.max_coin_qty).unwrap(),
        max_native_pc_qty_including_fees: NonZeroU64::new(order.max_native_pc_qty_including_fees)
            .unwrap(),
        self_trade_behavior: dex_behavior(order.self_trade_behavior),
        order_type: dex_order_type(order.order_type),
        client_order_id: order.client_order_id,
        limit: order.limit,
    }
}

fn orders() -> Vec<NewOrderInstructionV3> {
    let mut all = Vec::new();
    for side in [Side::Bid, Side::Ask] {
        for self_trade_behavior in [
            SelfTradeBehavior::DecrementTake,
            SelfTradeBehavior::CancelProvide,
            SelfTradeBehavior::AbortTransaction,
        ] {
            for order_type in [OrderType::Limit, OrderType::ImmediateOrCancel, OrderType::PostOnly]
            {
                all.push(NewOrderInstructionV3 {
                    side,
                    limit_price: 1 + all.len() as u64 * 0x0101_0101_0101,
                    max_coin_qty: u64::MAX - all.len() as u64,
                    max_native_pc_qty_including_fees: 1 << (3 * all.len()),
                    self_trade_behavior,
                    order_type,
                    client_order_id: all.len() as u64,
                    limit: 65535 - all.len() as u16,
                });
            }
        }
    }
    all
}

#[test]
fn order_bytes_are_those_of_the_order_book_program() {
    for order in orders() {
        let theirs = bincode::serialize(&dex_order(&order)).unwrap();
        let ours = MangoInstruction::PlaceOrder { order }.pack();
        assert_eq!(&ours[..4], &[9, 0, 0, 0]);
        assert_eq!(&ours[4..], &theirs[..]);
    }
}

#[test]
fn order_book_program_reads_our_order_bytes() {
    for order in orders() {
        let mut ours = Vec::new();
        order.pack_into(&mut ours);
        let theirs: serum_dex::instruction::NewOrderInstructionV3 =
            bincode::deserialize(&ours).unwrap();
        assert_eq!(theirs, dex_order(&order));
    }
}

#[test]
fn order_decoding_agrees_with_the_order_book_program() {
    // the order-book program takes a new order under its own tag 10, after a version byte
    for order in orders() {
        let mut ours = Vec::new();
        order.pack_into(&mut ours);
        let mut theirs = vec![0u8, 10, 0, 0, 0];
        theirs.extend_from_slice(&ours);
        assert_eq!(
            serum_dex::instruction::MarketInstruction::unpack(&theirs),
            Some(serum_dex::instruction::MarketInstruction::NewOrderV3(dex_order(&order)))
        );
        let bytes: [u8; 46] = ours.try_into().unwrap();
        assert_eq!(unpack_dex_new_order_v3(&bytes), Some(order));
    }
}

#[test]
fn enumerators_are_numbered_as_in_the_order_book_program() {
    for number in 0..=255u8 {
        let mut bytes = [1u8; 46];
        bytes[0..4].copy_from_slice(&[number, 0, 0, 0]);
        bytes[28..32].copy_from_slice(&[0, 0, 0, 0]);
        bytes[32..36].copy_from_slice(&[0, 0, 0, 0]);
        let side = unpack_dex_new_order_v3(&bytes).map(|order| dex_side(order.side));
        assert_eq!(side, serum_dex::matching::Side::try_from(number).ok());

        bytes[0..4].copy_from_slice(&[0, 0, 0, 0]);
        bytes[28..32].copy_from_slice(&[number, 0, 0, 0]);
        let behavior =
            unpack_dex_new_order_v3(&bytes).map(|order| dex_behavior(order.self_trade_behavior));
        assert_eq!(behavior, serum_dex::instruction::SelfTradeBehavior::try_from(number).ok());

        bytes[28..32].copy_from_slice(&[0, 0, 0, 0]);
        bytes[32..36].copy_from_slice(&[number, 0, 0, 0]);
        let order_type =
            unpack_dex_new_order_v3(&bytes).map(|order| dex_order_type(order.order_type));
        assert_eq!(order_type, serum_dex::matching::OrderType::try_from(number).ok());
    }
}

#[test]
fn side_one_decodes_to_ask_not_to_its_number() {
    let mut bytes = [1u8; 46];
    bytes[0..4].copy_from_slice(&[1, 0, 0, 0]);
    bytes[28..32].copy_from_slice(&[2, 0, 0, 0]);
    bytes[32..36].copy_from_slice(&[1, 0, 0, 0]);
    let order = unpack_dex_new_order_v3(&bytes).unwrap();
    assert_eq!(order.side, Side::Ask);
    assert_eq!(order.self_trade_behavior, SelfTradeBehavior::AbortTransaction);
    assert_eq!(order.order_type, OrderType::ImmediateOrCancel);
}

#[test]
fn cancel_bytes_are_those_of_the_order_book_program() {
    for (side, order_id) in [(Side::Bid, 0u128), (Side::Ask, 1), (Side::Ask, u128::MAX - 3)] {
        let theirs = bincode::serialize(&serum_dex::instruction::CancelOrderInstructionV2 {
            side: dex_side(side),
            order_id,
        })
        .unwrap();
        let ours =
            MangoInstruction::CancelOrder { order: CancelOrderInstructionV2 { side, order_id } }
                .pack();
        assert_eq!(&ours[..4], &[11, 0, 0, 0]);
        assert_eq!(&ours[4..], &theirs[..]);
    }
}

#[test]
fn ratio_bytes_are_those_of_the_fixed_point_crate() {
    for bits in [0u128, 1, 1 << 64, (3 << 63) + 5, u128::MAX] {
        let theirs = fixed::types::U64F64::from_bits(bits);
        let bytes = theirs.to_le_bytes();
        assert_eq!(U64F64::from_le_bytes(bytes).to_bits(), bits);
        let x = MangoInstruction::InitMangoGroup {
            signer_nonce: 7,
            maint_coll_ratio: U64F64::from_bits(bits),
            init_coll_ratio: U64F64::from_bits(!bits),
        };
        let packed = x.pack();
        assert_eq!(&packed[12..28], &bincode::serialize(&theirs).unwrap()[..]);
        assert_eq!(&packed[12..28], &bytes[..]);
        assert_eq!(
            &packed[28..44],
            &bincode::serialize(&fixed::types::U64F64::from_bits(!bits)).unwrap()[..]
        );
    }
}

#[test]
fn ratio_from_le_bytes_is_not_the_bytes_read_backwards() {
    let mut bytes = [0u8; 16];
    bytes[0] = 1;
    assert_eq!(U64F64::from_le_bytes(bytes).to_bits(), 1);
    bytes[0] = 0;
    bytes[15] = 1;
    assert_eq!(U64F64::from_le_bytes(bytes).to_bits(), 1 << 120);
}

#[test]
fn integers_are_encoded_as_the_serializer_encodes_them() {
    for quantity in [0u64, 1, 1_000_000, u64::MAX] {
        let packed = MangoInstruction::Deposit { quantity }.pack();
        assert_eq!(&packed[..4], &bincode::serialize(&2u32).unwrap()[..]);
        assert_eq!(&packed[4..], &bincode::serialize(&quantity).unwrap()[..]);
    }
    let packed = MangoInstruction::Borrow { token_index: 2, quantity: 9 }.pack();
    assert_eq!(&packed[4..], &bincode::serialize(&(2usize, 9u64)).unwrap()[..]);
    let packed = MangoInstruction::Liquidate { deposit_quantities: [5, 6, u64::MAX] }.pack();
    assert_eq!(&packed[4..], &bincode::serialize(&[5u64, 6, u64::MAX]).unwrap()[..]);
}

#[test]
fn liquidate_quantities_are_the_bytes_cast_on_a_little_endian_machine() {
    let quantities = [3u64, 0x0102_0304_0506_0708, u64::MAX - 1];
    let mut input = vec![6u8, 0, 0, 0];
    let bytes: &[u8] = bytemuck::cast_slice(&quantities);
    input.extend_from_slice(bytes);
    assert_eq!(bytes[..8], [3, 0, 0, 0, 0, 0, 0, 0]);
    assert_eq!(
        MangoInstruction::unpack(&input),
        Some(MangoInstruction::Liquidate { deposit_quantities: quantities })
    );
}

#[test]
fn well_known_addresses_are_those_of_their_crates() {
    let key = Pubkey::new_from_array([9; 32]);
    let request = deposit(&key, &key, &key, &key, &key, &key, 1).unwrap();
    assert_eq!(request.accounts[5].pubkey.to_bytes(), spl_token::ID.to_bytes());
    assert_eq!(
        request.accounts[6].pubkey.to_bytes(),
        solana_program::sysvar::clock::ID.to_bytes()
    );
    let request = init_margin_account(&key, &key, &key, &key).unwrap();
    assert_eq!(
        request.accounts[3].pubkey.to_bytes(),
        solana_program::sysvar::rent::ID.to_bytes()
    );
}

#[test]
fn well_known_addresses_in_bytes() {
    let key = Pubkey::new_from_array([9; 32]);
    let request = deposit(&key, &key, &key, &key, &key, &key, 1).unwrap();
    assert_eq!(
        request.accounts[5].pubkey.to_bytes(),
        [
            6, 221, 246, 225, 215, 101, 161, 147, 217, 203, 225, 70, 206, 235, 121, 172, 28, 180,
            133, 237, 95, 91, 55, 145, 58, 140, 245, 133, 126, 255, 0, 169
        ]
    );
    assert_eq!(
        request.accounts[6].pubkey.to_bytes(),
        [
            6, 167, 213, 23, 24, 199, 116, 201, 40, 86, 99, 152, 105, 29, 94, 182, 139, 94, 184,
            163, 155, 75, 109, 92, 115, 85, 91, 33, 0, 0, 0, 0
        ]
    );
    let request = init_margin_account(&key, &key, &key, &key).unwrap();
    assert_eq!(
        request.accounts[3].pubkey.to_bytes(),
        [
            6, 167, 213, 23, 25, 44, 92, 81, 33, 140, 201, 76, 61, 74, 241, 127, 88, 218, 238, 8,
            155, 161, 253, 68, 227, 219, 217, 138, 0, 0, 0, 0
        ]
    );
}
