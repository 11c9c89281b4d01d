use mango::builders::{
    borrow, cancel_order, cancel_order_by_client_id, deposit, deposit_srm, init_mango_group,
    init_margin_account, liquidate, place_order, settle_borrow, settle_funds, withdraw,
    withdraw_srm,
};
use mango::dex::{
    CancelOrderInstructionV2, NewOrderInstructionV3, OrderType, SelfTradeBehavior, Side,
};
use mango::fixed_point::U64F64;
use mango::instruction::MangoInstruction;
use mango::request::{extend_accounts, AccountMeta, Instruction, Pubkey};

const RENT: [u8; 32] = [
    6, 167, 213, 23, 25, 44, 92, 81, 33, 140, 201, 76, 61, 74, 241, 127, 88, 218, 238, 8, 155, 161,
    253, 68, 227, 219, 217, 138, 0, 0, 0, 0,
];
const CLOCK: [u8; 32] = [
    6, 167, 213, 23, 24, 199, 116, 201, 40, 86, 99, 152, 105, 29, 94, 182, 139, 94, 184, 163, 155,
    75, 109, 92, 115, 85, 91, 33, 0, 0, 0, 0,
];
const TOKEN: [u8; 32] = [
    6, 221, 246, 225, 215, 101, 161, 147, 217, 203, 225, 70, 206, 235, 121, 172, 28, 180, 133, 237,
    95, 91, 55, 145, 58, 140, 245, 133, 126, 255, 0, 169,
];

/// A distinct address for every small number.
fn key(n: u8) -> Pubkey {
    let mut bytes = [n; 32];
    bytes[0] = 0xa0;
    Pubkey::new_from_array(bytes)
}

fn keys(first: u8, count: u8) -> Vec<Pubkey> {
    (first..first + count).map(key).collect()
}

fn w(pubkey: Pubkey) -> AccountMeta {
    AccountMeta { pubkey, is_signer: false, is_writable: true }
}

fn r(pubkey: Pubkey) -> AccountMeta {
    AccountMeta { pubkey, is_signer: false, is_writable: false }
}

fn s(pubkey: Pubkey) -> AccountMeta {
    AccountMeta { pubkey, is_signer: true, is_writable: false }
}

fn rent() -> AccountMeta {
    r(Pubkey::new_from_array(RENT))
}

fn clock() -> AccountMeta {
    r(Pubkey::new_from_array(CLOCK))
}

fn token_program() -> AccountMeta {
    r(Pubkey::new_from_array(TOKEN))
}

fn check(request: Instruction, accounts: Vec<AccountMeta>, instruction: MangoInstruction) {
    assert_eq!(request.program_id, key(1));
    assert_eq!(request.accounts, accounts);
    assert_eq!(request.data, instruction.pack());
    assert_eq!(MangoInstruction::unpack(&request.data), Some(instruction));
}

fn sample_order() -> NewOrderInstructionV3 {
    NewOrderInstructionV3 {
        side: Side::Bid,
        limit_price: 100,
        max_coin_qty: 5,
        max_native_pc_qty_including_fees: 505,
        self_trade_behavior: SelfTradeBehavior::CancelProvide,
        order_type: OrderType::ImmediateOrCancel,
        client_order_id: 1234,
        limit: 10,
    }
}

#[test]
fn account_meta_constructors() {
    assert_eq!(AccountMeta::new(key(3), false), w(key(3)));
    assert_eq!(AccountMeta::new_readonly(key(3), false), r(key(3)));
    assert_eq!(AccountMeta::new_readonly(key(3), true), s(key(3)));
    assert_eq!(
        AccountMeta::new(key(3), true),
        AccountMeta { pubkey: key(3), is_signer: true, is_writable: true }
    );
}

#[test]
fn pubkey_keeps_its_bytes() {
    let mut bytes = [0u8; 32];
    for (i, b) in bytes.iter_mut().enumerate() {
        *b = i as u8;
    }
    assert_eq!(Pubkey::new_from_array(bytes).to_bytes(), bytes);
    assert_eq!(Pubkey::new_from_array(bytes).0, bytes);
}

#[test]
fn extend_accounts_appends_in_order() {
    let mut accounts = vec![s(key(1))];
    extend_accounts(&mut accounts, &keys(10, 3), true);
    extend_accounts(&mut accounts, &[], false);
    extend_accounts(&mut accounts, &keys(20, 2), false);
    assert_eq!(
        accounts,
        vec![s(key(1)), w(key(10)), w(key(11)), w(key(12)), r(key(20)), r(key(21))]
    );
}

#[test]
fn init_mango_group_accounts() {
    let maint = U64F64::from_bits(11 << 60);
    let init = U64F64::from_bits(12 << 60);
    let request = init_mango_group(
        &key(1),
        &key(2),
        &key(3),
        &key(4),
        &key(5),
        &keys(10, 3),
        &keys(20, 3),
        &keys(30, 2),
        &keys(40, 2),
        254,
        maint,
        init,
    )
    .unwrap();
    check(
        request,
        vec![
            w(key(2)),
            rent(),
            clock(),
            r(key(3)),
            r(key(4)),
            r(key(5)),
            r(key(10)),
            r(key(11)),
            r(key(12)),
            r(key(20)),
            r(key(21)),
            r(key(22)),
            r(key(30)),
            r(key(31)),
            r(key(40)),
            r(key(41)),
        ],
        MangoInstruction::InitMangoGroup {
            signer_nonce: 254,
            maint_coll_ratio: maint,
            init_coll_ratio: init,
        },
    );
}

#[test]
fn init_margin_account_accounts() {
    let request = init_margin_account(&key(1), &key(2), &key(3), &key(4)).unwrap();
    check(
        request,
        vec![r(key(2)), w(key(3)), s(key(4)), rent()],
        MangoInstruction::InitMarginAccount,
    );
}

#[test]
fn deposit_scenario() {
    let program = key(1);
    let (a, b, c, d, e) = (key(2), key(3), key(4), key(5), key(6));
    let request = deposit(&program, &a, &b, &c, &d, &e, 1_000_000).unwrap();
    assert_eq!(request.data, vec![0x02, 0, 0, 0, 0x40, 0x42, 0x0f, 0, 0, 0, 0, 0]);
    assert_eq!(request.accounts.len(), 7);
    check(
        request,
        vec![w(a), w(b), s(c), w(d), w(e), token_program(), clock()],
        MangoInstruction::Deposit { quantity: 1_000_000 },
    );
}

#[test]
fn withdraw_accounts() {
    let request = withdraw(
        &key(1),
        &key(2),
        &key(3),
        &key(4),
        &key(5),
        &key(6),
        &key(7),
        &keys(10, 2),
        &keys(20, 2),
        99,
    )
    .unwrap();
    check(
        request,
        vec![
            w(key(2)),
            w(key(3)),
            s(key(4)),
            w(key(5)),
            w(key(6)),
            r(key(7)),
            token_program(),
            clock(),
            r(key(10)),
            r(key(11)),
            r(key(20)),
            r(key(21)),
        ],
        MangoInstruction::Withdraw { quantity: 99 },
    );
}

#[test]
fn borrow_accounts() {
    let request =
        borrow(&key(1), &key(2), &key(3), &key(4), &keys(10, 2), &keys(20, 2), 2, 700).unwrap();
    check(
        request,
        vec![
            w(key(2)),
            w(key(3)),
            s(key(4)),
            clock(),
            r(key(10)),
            r(key(11)),
            r(key(20)),
            r(key(21)),
        ],
        MangoInstruction::Borrow { token_index: 2, quantity: 700 },
    );
}

#[test]
fn settle_borrow_accounts() {
    let request = settle_borrow(&key(1), &key(2), &key(3), &key(4), 1, 55).unwrap();
    check(
        request,
        vec![w(key(2)), w(key(3)), s(key(4)), clock()],
        MangoInstruction::SettleBorrow { token_index: 1, quantity: 55 },
    );
}

#[test]
fn liquidate_accounts() {
    let request = liquidate(
        &key(1),
        &key(2),
        &key(3),
        &key(4),
        &keys(10, 2),
        &keys(20, 2),
        &keys(30, 3),
        &keys(40, 3),
        [7, 8, 9],
    )
    .unwrap();
    check(
        request,
        vec![
            w(key(2)),
            s(key(3)),
            w(key(4)),
            token_program(),
            clock(),
            r(key(10)),
            r(key(11)),
            r(key(20)),
            r(key(21)),
            w(key(30)),
            w(key(31)),
            w(key(32)),
            w(key(40)),
            w(key(41)),
            w(key(42)),
        ],
        MangoInstruction::Liquidate { deposit_quantities: [7, 8, 9] },
    );
}

#[test]
fn deposit_srm_accounts() {
    let request = deposit_srm(&key(1), &key(2), &key(3), &key(4), &key(5), &key(6), 12).unwrap();
    check(
        request,
        vec![w(key(2)), w(key(3)), s(key(4)), w(key(5)), w(key(6)), token_program(), clock()],
        MangoInstruction::DepositSrm { quantity: 12 },
    );
}

#[test]
fn withdraw_srm_accounts() {
    let request =
        withdraw_srm(&key(1), &key(2), &key(3), &key(4), &key(5), &key(6), &key(7), 13).unwrap();
    check(
        request,
        vec![
            w(key(2)),
            w(key(3)),
            s(key(4)),
            w(key(5)),
            w(key(6)),
            r(key(7)),
            token_program(),
            clock(),
        ],
        MangoInstruction::WithdrawSrm { quantity: 13 },
    );
}

#[test]
fn place_order_accounts() {
    let request = place_order(
        &key(1),
        &key(2),
        &key(3),
        &key(4),
        &key(5),
        &key(6),
        &key(7),
        &key(8),
        &key(9),
        &key(10),
        &key(11),
        &key(12),
        &key(13),
        &key(14),
        &key(15),
        &keys(20, 2),
        &keys(30, 2),
        sample_order(),
    )
    .unwrap();
    check(
        request,
        vec![
            w(key(2)),
            s(key(3)),
            w(key(4)),
            clock(),
            r(key(5)),
            w(key(6)),
            w(key(7)),
            w(key(8)),
            w(key(9)),
            w(key(10)),
            w(key(11)),
            r(key(12)),
            w(key(13)),
            w(key(14)),
            token_program(),
            rent(),
            w(key(15)),
            w(key(20)),
            w(key(21)),
            r(key(30)),
            r(key(31)),
        ],
        MangoInstruction::PlaceOrder { order: sample_order() },
    );
}

#[test]
fn settle_funds_accounts() {
    let request = settle_funds(
        &key(1),
        &key(2),
        &key(3),
        &key(4),
        &key(5),
        &key(6),
        &key(7),
        &key(8),
        &key(9),
        &key(10),
        &key(11),
        &key(12),
        &key(13),
    )
    .unwrap();
    check(
        request,
        vec![
            w(key(2)),
            s(key(3)),
            w(key(4)),
            clock(),
            r(key(5)),
            w(key(6)),
            w(key(7)),
            r(key(8)),
            w(key(9)),
            w(key(10)),
            w(key(11)),
            w(key(12)),
            r(key(13)),
            token_program(),
        ],
        MangoInstruction::SettleFunds,
    );
}

fn cancel_accounts() -> Vec<AccountMeta> {
    vec![
        w(key(2)),
        s(key(3)),
        r(key(4)),
        clock(),
        r(key(5)),
        w(key(6)),
        w(key(7)),
        w(key(8)),
        w(key(9)),
        r(key(10)),
        w(key(11)),
    ]
}

#[test]
fn cancel_order_accounts() {
    let order = CancelOrderInstructionV2 { side: Side::Ask, order_id: 1 << 100 };
    let request = cancel_order(
        &key(1),
        &key(2),
        &key(3),
        &key(4),
        &key(5),
        &key(6),
        &key(7),
        &key(8),
        &key(9),
        &key(10),
        &key(11),
        order.clone(),
    )
    .unwrap();
    check(request, cancel_accounts(), MangoInstruction::CancelOrder { order });
}

#[test]
fn cancel_order_by_client_id_scenario() {
    let request = cancel_order_by_client_id(
        &key(1),
        &key(2),
        &key(3),
        &key(4),
        &key(5),
        &key(6),
        &key(7),
        &key(8),
        &key(9),
        &key(10),
        &key(11),
        42,
    )
    .unwrap();
    assert_eq!(request.data, vec![0x0c, 0, 0, 0, 0x2a, 0, 0, 0, 0, 0, 0, 0]);
    check(request, cancel_accounts(), MangoInstruction::CancelOrderByClientId { client_id: 42 });
}

#[test]
fn builders_take_groups_of_any_length() {
    let request =
        borrow(&key(1), &key(2), &key(3), &key(4), &[], &keys(20, 5), 0, 0).unwrap();
    assert_eq!(request.accounts.len(), 9);
    assert_eq!(request.accounts[4], r(key(20)));
    assert_eq!(request.accounts[8], r(key(24)));
}
