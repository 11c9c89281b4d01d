//! One function per instruction: each assembles the account list that the
//! program expects for it, in the program's order, and the encoded
//! instruction.
use crate::dex::{CancelOrderInstructionV2, NewOrderInstructionV3};
use crate::fixed_point::U64F64;
use crate::instruction::MangoInstruction;
use crate::request::{
    clock_sysvar_address, clock_sysvar_id, extend_accounts, group, readonly, rent_sysvar_address,
    rent_sysvar_id, signer, token_program_address, token_program_id, writable, AccountMeta,
    Instruction, InstructionView, Pubkey,
};
use crate::state::NUM_TOKENS;
use solana_program::program_error::ProgramError;
use vstd::prelude::*;

verus! {

/// The request that initializes a group of lending pools that can be cross
/// margined.
///
/// Accounts, in order: the group (writable), the rent sysvar, the clock
/// sysvar, the group's signer, the order-book program, the group's fee
/// vault; then the mint of every token, then the group's vault of every
/// token, then every spot market, then the oracle of every market. Tokens
/// and markets come in the order that the group is to keep, the quote
/// currency last; the caller sees to that order.
pub fn init_mango_group(
    program_id: &Pubkey,
    mango_group_pk: &Pubkey,
    signer_pk: &Pubkey,
    dex_prog_id: &Pubkey,
    srm_vault_pk: &Pubkey,
    mint_pks: &[Pubkey],
    vault_pks: &[Pubkey],
    spot_market_pks: &[Pubkey],
    oracle_pks: &[Pubkey],
    signer_nonce: u64,
    maint_coll_ratio: U64F64,
    init_coll_ratio: U64F64,
) -> (request: Result<Instruction, ProgramError>)
    ensures
        request matches Ok(instruction) && instruction@ == (InstructionView {
            program_id: program_id@,
            accounts: seq![
                writable(mango_group_pk@),
                readonly(rent_sysvar_address()),
                readonly(clock_sysvar_address()),
                readonly(signer_pk@),
                readonly(dex_prog_id@),
                readonly(srm_vault_pk@),
            ] + group(mint_pks@, false) + group(vault_pks@, false) + group(spot_market_pks@, false)
                + group(oracle_pks@, false),
            data: (MangoInstruction::InitMangoGroup {
                signer_nonce,
                maint_coll_ratio,
                init_coll_ratio,
            }).encoding(),
        }),
{
    let mut accounts = vec![
        AccountMeta::new(*mango_group_pk, false),
        AccountMeta::new_readonly(rent_sysvar_id(), false),
        AccountMeta::new_readonly(clock_sysvar_id(), false),
        AccountMeta::new_readonly(*signer_pk, false),
        AccountMeta::new_readonly(*dex_prog_id, false),
        AccountMeta::new_readonly(*srm_vault_pk, false),
    ];
    extend_accounts(&mut accounts, mint_pks, false);
    extend_accounts(&mut accounts, vault_pks, false);
    extend_accounts(&mut accounts, spot_market_pks, false);
    extend_accounts(&mut accounts, oracle_pks, false);

    let instr =
        MangoInstruction::InitMangoGroup { signer_nonce, maint_coll_ratio, init_coll_ratio };
    let data = instr.pack();
    Ok(Instruction { program_id: *program_id, accounts, data })
}

/// The request that initializes a margin account for a user.
///
/// Accounts, in order: the group, the margin account (writable), the owner
/// (signer), the rent sysvar.
pub fn init_margin_account(
    program_id: &Pubkey,
    mango_group_pk: &Pubkey,
    margin_account_pk: &Pubkey,
    owner_pk: &Pubkey,
) -> (request: Result<Instruction, ProgramError>)
    ensures
        request matches Ok(instruction) && instruction@ == (InstructionView {
            program_id: program_id@,
            accounts: seq![
                readonly(mango_group_pk@),
                writable(margin_account_pk@),
                signer(owner_pk@),
                readonly(rent_sysvar_address()),
            ],
            data: (MangoInstruction::InitMarginAccount).encoding(),
        }),
{
    let accounts = vec![
        AccountMeta::new_readonly(*mango_group_pk, false),
        AccountMeta::new(*margin_account_pk, false),
        AccountMeta::new_readonly(*owner_pk, true),
        AccountMeta::new_readonly(rent_sysvar_id(), false),
    ];

    let instr = MangoInstruction::InitMarginAccount;
    let data = instr.pack();
    Ok(Instruction { program_id: *program_id, accounts, data })
}

/// The request that deposits funds into a margin account.
///
/// Accounts, in order: the group (writable), the margin account (writable),
/// the owner (signer), the owner's token account that pays (writable), the
/// group's vault (writable), the token program, the clock sysvar.
pub fn deposit(
    program_id: &Pubkey,
    mango_group_pk: &Pubkey,
    margin_account_pk: &Pubkey,
    owner_pk: &Pubkey,
    token_account_pk: &Pubkey,
    vault_pk: &Pubkey,
    quantity: u64,
) -> (request: Result<Instruction, ProgramError>)
    ensures
        request matches Ok(instruction) && instruction@ == (InstructionView {
            program_id: program_id@,
            accounts: seq![
                writable(mango_group_pk@),
                writable(margin_account_pk@),
                signer(owner_pk@),
                writable(token_account_pk@),
                writable(vault_pk@),
                readonly(token_program_address()),
                readonly(clock_sysvar_address()),
            ],
            data: (MangoInstruction::Deposit { quantity }).encoding(),
        }),
{
    let accounts = vec![
        AccountMeta::new(*mango_group_pk, false),
        AccountMeta::new(*margin_account_pk, false),
        AccountMeta::new_readonly(*owner_pk, true),
        AccountMeta::new(*token_account_pk, false),
        AccountMeta::new(*vault_pk, false),
        AccountMeta::new_readonly(token_program_id(), false),
        AccountMeta::new_readonly(clock_sysvar_id(), false),
    ];

    let instr = MangoInstruction::Deposit { quantity };
    let data = instr.pack();
    Ok(Instruction { program_id: *program_id, accounts, data })
}

/// The request that withdraws funds that were deposited earlier.
///
/// Accounts, in order: the group (writable), the margin account (writable),
/// the owner (signer), the owner's token account that receives (writable),
/// the group's vault (writable), the group's signer, the token program, the
/// clock sysvar; then the open-orders account of every market, then the
/// oracle of every market.
pub fn withdraw(
    program_id: &Pubkey,
    mango_group_pk: &Pubkey,
    margin_account_pk: &Pubkey,
    owner_pk: &Pubkey,
    token_account_pk: &Pubkey,
    vault_pk: &Pubkey,
    signer_pk: &Pubkey,
    open_orders_pks: &[Pubkey],
    oracle_pks: &[Pubkey],
    quantity: u64,
) -> (request: Result<Instruction, ProgramError>)
    ensures
        request matches Ok(instruction) && instruction@ == (InstructionView {
            program_id: program_id@,
            accounts: seq![
                writable(mango_group_pk@),
                writable(margin_account_pk@),
                signer(owner_pk@),
                writable(token_account_pk@),
                writable(vault_pk@),
                readonly(signer_pk@),
                readonly(token_program_address()),
                readonly(clock_sysvar_address()),
            ] + group(open_orders_pks@, false) + group(oracle_pks@, false),
            data: (MangoInstruction::Withdraw { quantity }).encoding(),
        }),
{
    let mut accounts = vec![
        AccountMeta::new(*mango_group_pk, false),
        AccountMeta::new(*margin_account_pk, false),
        AccountMeta::new_readonly(*owner_pk, true),
        AccountMeta::new(*token_account_pk, false),
        AccountMeta::new(*vault_pk, false),
        AccountMeta::new_readonly(*signer_pk, false),
        AccountMeta::new_readonly(token_program_id(), false),
        AccountMeta::new_readonly(clock_sysvar_id(), false),
    ];
    extend_accounts(&mut accounts, open_orders_pks, false);
    extend_accounts(&mut accounts, oracle_pks, false);

    let instr = MangoInstruction::Withdraw { quantity };
    let data = instr.pack();
    Ok(Instruction { program_id: *program_id, accounts, data })
}

/// The request that borrows against the collateral of a margin account.
///
/// Accounts, in order: the group (writable), the margin account (writable),
/// the owner (signer), the clock sysvar; then the open-orders account of
/// every market, then the oracle of every market.
pub fn borrow(
    program_id: &Pubkey,
    mango_group_pk: &Pubkey,
    margin_account_pk: &Pubkey,
    owner_pk: &Pubkey,
    open_orders_pks: &[Pubkey],
    oracle_pks: &[Pubkey],
    token_index: usize,
    quantity: u64,
) -> (request: Result<Instruction, ProgramError>)
    ensures
        request matches Ok(instruction) && instruction@ == (InstructionView {
            program_id: program_id@,
            accounts: seq![
                writable(mango_group_pk@),
                writable(margin_account_pk@),
                signer(owner_pk@),
                readonly(clock_sysvar_address()),
            ] + group(open_orders_pks@, false) + group(oracle_pks@, false),
            data: (MangoInstruction::Borrow { token_index, quantity }).encoding(),
        }),
{
    let mut accounts = vec![
        AccountMeta::new(*mango_group_pk, false),
        AccountMeta::new(*margin_account_pk, false),
        AccountMeta::new_readonly(*owner_pk, true),
        AccountMeta::new_readonly(clock_sysvar_id(), false),
    ];
    extend_accounts(&mut accounts, open_orders_pks, false);
    extend_accounts(&mut accounts, oracle_pks, false);

    let instr = MangoInstruction::Borrow { token_index, quantity };
    let data = instr.pack();
    Ok(Instruction { program_id: *program_id, accounts, data })
}

/// The request that uses a token's deposits to reduce what is borrowed of
/// it.
///
/// Accounts, in order: the group (writable), the margin account (writable),
/// the owner (signer), the clock sysvar.
pub fn settle_borrow(
    program_id: &Pubkey,
    mango_group_pk: &Pubkey,
    margin_account_pk: &Pubkey,
    owner_pk: &Pubkey,
    token_index: usize,
    quantity: u64,
) -> (request: Result<Instruction, ProgramError>)
    ensures
        request matches Ok(instruction) && instruction@ == (InstructionView {
            program_id: program_id@,
            accounts: seq![
                writable(mango_group_pk@),
                writable(margin_account_pk@),
                signer(owner_pk@),
                readonly(clock_sysvar_address()),
            ],
            data: (MangoInstruction::SettleBorrow { token_index, quantity }).encoding(),
        }),
{
    let accounts = vec![
        AccountMeta::new(*mango_group_pk, false),
        AccountMeta::new(*margin_account_pk, false),
        AccountMeta::new_readonly(*owner_pk, true),
        AccountMeta::new_readonly(clock_sysvar_id(), false),
    ];

    let instr = MangoInstruction::SettleBorrow { token_index, quantity };
    let data = instr.pack();
    Ok(Instruction { program_id: *program_id, accounts, data })
}

/// The request that takes over a margin account below the maintenance
/// ratio by depositing funds.
///
/// Accounts, in order: the group (writable), the liquidator (signer), the
/// margin account that is liquidated (writable), the token program, the
/// clock sysvar; then the open-orders account of every market, then the
/// oracle of every market, then the group's vault of every token
/// (writable), then the liquidator's token account of every token
/// (writable).
pub fn liquidate(
    program_id: &Pubkey,
    mango_group_pk: &Pubkey,
    liqor_pk: &Pubkey,
    liqee_margin_account_pk: &Pubkey,
    open_orders_pks: &[Pubkey],
    oracle_pks: &[Pubkey],
    vault_pks: &[Pubkey],
    liqor_token_account_pks: &[Pubkey],
    deposit_quantities: [u64; NUM_TOKENS],
) -> (request: Result<Instruction, ProgramError>)
    ensures
        request matches Ok(instruction) && instruction@ == (InstructionView {
            program_id: program_id@,
            accounts: seq![
                writable(mango_group_pk@),
                signer(liqor_pk@),
                writable(liqee_margin_account_pk@),
                readonly(token_program_address()),
                readonly(clock_sysvar_address()),
            ] + group(open_orders_pks@, false) + group(oracle_pks@, false) + group(vault_pks@, true)
                + group(liqor_token_account_pks@, true),
            data: (MangoInstruction::Liquidate { deposit_quantities }).encoding(),
        }),
{
    let mut accounts = vec![
        AccountMeta::new(*mango_group_pk, false),
        AccountMeta::new_readonly(*liqor_pk, true),
        AccountMeta::new(*liqee_margin_account_pk, false),
        AccountMeta::new_readonly(token_program_id(), false),
        AccountMeta::new_readonly(clock_sysvar_id(), false),
    ];
    extend_accounts(&mut accounts, open_orders_pks, false);
    extend_accounts(&mut accounts, oracle_pks, false);
    extend_accounts(&mut accounts, vault_pks, true);
    extend_accounts(&mut accounts, liqor_token_account_pks, true);

    let instr = MangoInstruction::Liquidate { deposit_quantities };
    let data = instr.pack();
    Ok(Instruction { program_id: *program_id, accounts, data })
}

/// The request that deposits SRM into the group's fee vault.
///
/// Accounts, in order: the group (writable), the margin account (writable),
/// the owner (signer), the owner's SRM account that pays (writable), the
/// group's fee vault (writable), the token program, the clock sysvar.
pub fn deposit_srm(
    program_id: &Pubkey,
    mango_group_pk: &Pubkey,
    margin_account_pk: &Pubkey,
    owner_pk: &Pubkey,
    srm_account_pk: &Pubkey,
    vault_pk: &Pubkey,
    quantity: u64,
) -> (request: Result<Instruction, ProgramError>)
    ensures
        request matches Ok(instruction) && instruction@ == (InstructionView {
            program_id: program_id@,
            accounts: seq![
                writable(mango_group_pk@),
                writable(margin_account_pk@),
                signer(owner_pk@),
                writable(srm_account_pk@),
                writable(vault_pk@),
                readonly(token_program_address()),
                readonly(clock_sysvar_address()),
            ],
            data: (MangoInstruction::DepositSrm { quantity }).encoding(),
        }),
{
    let accounts = vec![
        AccountMeta::new(*mango_group_pk, false),
        AccountMeta::new(*margin_account_pk, false),
        AccountMeta::new_readonly(*owner_pk, true),
        AccountMeta::new(*srm_account_pk, false),
        AccountMeta::new(*vault_pk, false),
        AccountMeta::new_readonly(token_program_id(), false),
        AccountMeta::new_readonly(clock_sysvar_id(), false),
    ];

    let instr = MangoInstruction::DepositSrm { quantity };
    let data = instr.pack();
    Ok(Instruction { program_id: *program_id, accounts, data })
}

/// The request that withdraws SRM owed to a margin account.
///
/// Accounts, in order: the group (writable), the margin account (writable),
/// the owner (signer), the owner's SRM account that receives (writable),
/// the group's fee vault (writable), the group's signer, the token program,
/// the clock sysvar.
pub fn withdraw_srm(
    program_id: &Pubkey,
    mango_group_pk: &Pubkey,
    margin_account_pk: &Pubkey,
    owner_pk: &Pubkey,
    srm_account_pk: &Pubkey,
    vault_pk: &Pubkey,
    signer_pk: &Pubkey,
    quantity: u64,
) -> (request: Result<Instruction, ProgramError>)
    ensures
        request matches Ok(instruction) && instruction@ == (InstructionView {
            program_id: program_id@,
            accounts: seq![
                writable(mango_group_pk@),
                writable(margin_account_pk@),
                signer(owner_pk@),
                writable(srm_account_pk@),
                writable(vault_pk@),
                readonly(signer_pk@),
                readonly(token_program_address()),
                readonly(clock_sysvar_address()),
            ],
            data: (MangoInstruction::WithdrawSrm { quantity }).encoding(),
        }),
{
    let accounts = vec![
        AccountMeta::new(*mango_group_pk, false),
        AccountMeta::new(*margin_account_pk, false),
        AccountMeta::new_readonly(*owner_pk, true),
        AccountMeta::new(*srm_account_pk, false),
        AccountMeta::new(*vault_pk, false),
        AccountMeta::new_readonly(*signer_pk, false),
        AccountMeta::new_readonly(token_program_id(), false),
        AccountMeta::new_readonly(clock_sysvar_id(), false),
    ];

    let instr = MangoInstruction::WithdrawSrm { quantity };
    let data = instr.pack();
    Ok(Instruction { program_id: *program_id, accounts, data })
}

/// The request that places an order on the order book with the margin
/// account's funds.
///
/// Accounts, in order: the group (writable), the owner (signer), the margin
/// account (writable), the clock sysvar, the order-book program, the market,
/// its request queue, its event queue, its bids and its asks (all writable),
/// the group's vault for the currency that is paid (writable), the group's
/// signer, the market's base and quote vaults (writable), the token program,
/// the rent sysvar, the group's fee vault (writable); then the open-orders
/// account of every market (writable), then the oracle of every market.
pub fn place_order(
    program_id: &Pubkey,
    mango_group_pk: &Pubkey,
    owner_pk: &Pubkey,
    margin_account_pk: &Pubkey,
    dex_prog_id: &Pubkey,
    spot_market_pk: &Pubkey,
    dex_request_queue_pk: &Pubkey,
    dex_event_queue_pk: &Pubkey,
    bids_pk: &Pubkey,
    asks_pk: &Pubkey,
    vault_pk: &Pubkey,
    signer_pk: &Pubkey,
    dex_base_pk: &Pubkey,
    dex_quote_pk: &Pubkey,
    srm_vault_pk: &Pubkey,
    open_orders_pks: &[Pubkey],
    oracle_pks: &[Pubkey],
    order: NewOrderInstructionV3,
) -> (request: Result<Instruction, ProgramError>)
    ensures
        request matches Ok(instruction) && instruction@ == (InstructionView {
            program_id: program_id@,
            accounts: seq![
                writable(mango_group_pk@),
                signer(owner_pk@),
                writable(margin_account_pk@),
                readonly(clock_sysvar_address()),
                readonly(dex_prog_id@),
                writable(spot_market_pk@),
                writable(dex_request_queue_pk@),
                writable(dex_event_queue_pk@),
                writable(bids_pk@),
                writable(asks_pk@),
                writable(vault_pk@),
                readonly(signer_pk@),
                writable(dex_base_pk@),
                writable(dex_quote_pk@),
                readonly(token_program_address()),
                readonly(rent_sysvar_address()),
                writable(srm_vault_pk@),
            ] + group(open_orders_pks@, true) + group(oracle_pks@, false),
            data: (MangoInstruction::PlaceOrder { order }).encoding(),
        }),
{
    let mut accounts = vec![
        AccountMeta::new(*mango_group_pk, false),
        AccountMeta::new_readonly(*owner_pk, true),
        AccountMeta::new(*margin_account_pk, false),
        AccountMeta::new_readonly(clock_sysvar_id(), false),
        AccountMeta::new_readonly(*dex_prog_id, false),
        AccountMeta::new(*spot_market_pk, false),
        AccountMeta::new(*dex_request_queue_pk, false),
        AccountMeta::new(*dex_event_queue_pk, false),
        AccountMeta::new(*bids_pk, false),
        AccountMeta::new(*asks_pk, false),
        AccountMeta::new(*vault_pk, false),
        AccountMeta::new_readonly(*signer_pk, false),
        AccountMeta::new(*dex_base_pk, false),
        AccountMeta::new(*dex_quote_pk, false),
        AccountMeta::new_readonly(token_program_id(), false),
        AccountMeta::new_readonly(rent_sysvar_id(), false),
        AccountMeta::new(*srm_vault_pk, false),
    ];
    extend_accounts(&mut accounts, open_orders_pks, true);
    extend_accounts(&mut accounts, oracle_pks, false);

    let instr = MangoInstruction::PlaceOrder { order };
    let data = instr.pack();
    Ok(Instruction { program_id: *program_id, accounts, data })
}

/// The request that settles all funds from the order book's open orders
/// into the margin account.
///
/// Accounts, in order: the group (writable), the owner (signer), the margin
/// account (writable), the clock sysvar, the order-book program, the market
/// (writable), the margin account's open-orders account for it (writable),
/// the group's signer, the market's base and quote vaults (writable), the
/// group's base and quote vaults (writable), the market's signer, the token
/// program.
pub fn settle_funds(
    program_id: &Pubkey,
    mango_group_pk: &Pubkey,
    owner_pk: &Pubkey,
    margin_account_pk: &Pubkey,
    dex_prog_id: &Pubkey,
    spot_market_pk: &Pubkey,
    open_orders_pk: &Pubkey,
    signer_pk: &Pubkey,
    dex_base_pk: &Pubkey,
    dex_quote_pk: &Pubkey,
    base_vault_pk: &Pubkey,
    quote_vault_pk: &Pubkey,
    dex_signer_pk: &Pubkey,
) -> (request: Result<Instruction, ProgramError>)
    ensures
        request matches Ok(instruction) && instruction@ == (InstructionView {
            program_id: program_id@,
            accounts: seq![
                writable(mango_group_pk@),
                signer(owner_pk@),
                writable(margin_account_pk@),
                readonly(clock_sysvar_address()),
                readonly(dex_prog_id@),
                writable(spot_market_pk@),
                writable(open_orders_pk@),
                readonly(signer_pk@),
                writable(dex_base_pk@),
                writable(dex_quote_pk@),
                writable(base_vault_pk@),
                writable(quote_vault_pk@),
                readonly(dex_signer_pk@),
                readonly(token_program_address()),
            ],
            data: (MangoInstruction::SettleFunds).encoding(),
        }),
{
    let accounts = vec![
        AccountMeta::new(*mango_group_pk, false),
        AccountMeta::new_readonly(*owner_pk, true),
        AccountMeta::new(*margin_account_pk, false),
        AccountMeta::new_readonly(clock_sysvar_id(), false),
        AccountMeta::new_readonly(*dex_prog_id, false),
        AccountMeta::new(*spot_market_pk, false),
        AccountMeta::new(*open_orders_pk, false),
        AccountMeta::new_readonly(*signer_pk, false),
        AccountMeta::new(*dex_base_pk, false),
        AccountMeta::new(*dex_quote_pk, false),
        AccountMeta::new(*base_vault_pk, false),
        AccountMeta::new(*quote_vault_pk, false),
        AccountMeta::new_readonly(*dex_signer_pk, false),
        AccountMeta::new_readonly(token_program_id(), false),
    ];

    let instr = MangoInstruction::SettleFunds;
    let data = instr.pack();
    Ok(Instruction { program_id: *program_id, accounts, data })
}

/// The request that cancels an order by its identifier.
///
/// Accounts, in order: the group (writable), the owner (signer), the margin
/// account, the clock sysvar, the order-book program, the market, its bids
/// and its asks (writable), the open-orders account that the order belongs
/// to (writable), the group's signer, the market's event queue (writable).
pub fn cancel_order(
    program_id: &Pubkey,
    mango_group_pk: &Pubkey,
    owner_pk: &Pubkey,
    margin_account_pk: &Pubkey,
    dex_prog_id: &Pubkey,
    spot_market_pk: &Pubkey,
    bids_pk: &Pubkey,
    asks_pk: &Pubkey,
    open_orders_pk: &Pubkey,
    signer_pk: &Pubkey,
    dex_event_queue_pk: &Pubkey,
    order: CancelOrderInstructionV2,
) -> (request: Result<Instruction, ProgramError>)
    ensures
        request matches Ok(instruction) && instruction@ == (InstructionView {
            program_id: program_id@,
            accounts: seq![
                writable(mango_group_pk@),
                signer(owner_pk@),
                readonly(margin_account_pk@),
                readonly(clock_sysvar_address()),
                readonly(dex_prog_id@),
                writable(spot_market_pk@),
                writable(bids_pk@),
                writable(asks_pk@),
                writable(open_orders_pk@),
                readonly(signer_pk@),
                writable(dex_event_queue_pk@),
            ],
            data: (MangoInstruction::CancelOrder { order }).encoding(),
        }),
{
    let accounts = vec![
        AccountMeta::new(*mango_group_pk, false),
        AccountMeta::new_readonly(*owner_pk, true),
        AccountMeta::new_readonly(*margin_account_pk, false),
        AccountMeta::new_readonly(clock_sysvar_id(), false),
        AccountMeta::new_readonly(*dex_prog_id, false),
        AccountMeta::new(*spot_market_pk, false),
        AccountMeta::new(*bids_pk, false),
        AccountMeta::new(*asks_pk, false),
        AccountMeta::new(*open_orders_pk, false),
        AccountMeta::new_readonly(*signer_pk, false),
        AccountMeta::new(*dex_event_queue_pk, false),
    ];

    let instr = MangoInstruction::CancelOrder { order };
    let data = instr.pack();
    Ok(Instruction { program_id: *program_id, accounts, data })
}

/// The request that cancels an order by the identifier that the client gave
/// it.
///
/// Accounts, in order: the group (writable), the owner (signer), the margin
/// account, the clock sysvar, the order-book program, the market, its bids
/// and its asks (writable), the open-orders account that the order belongs
/// to (writable), the group's signer, the market's event queue (writable).
pub fn cancel_order_by_client_id(
    program_id: &Pubkey,
    mango_group_pk: &Pubkey,
    owner_pk: &Pubkey,
    margin_account_pk: &Pubkey,
    dex_prog_id: &Pubkey,
    spot_market_pk: &Pubkey,
    bids_pk: &Pubkey,
    asks_pk: &Pubkey,
    open_orders_pk: &Pubkey,
    signer_pk: &Pubkey,
    dex_event_queue_pk: &Pubkey,
    client_id: u64,
) -> (request: Result<Instruction, ProgramError>)
    ensures
        request matches Ok(instruction) && instruction@ == (InstructionView {
            program_id: program_id@,
            accounts: seq![
                writable(mango_group_pk@),
                signer(owner_pk@),
                readonly(margin_account_pk@),
                readonly(clock_sysvar_address()),
                readonly(dex_prog_id@),
                writable(spot_market_pk@),
                writable(bids_pk@),
                writable(asks_pk@),
                writable(open_orders_pk@),
                readonly(signer_pk@),
                writable(dex_event_queue_pk@),
            ],
            data: (MangoInstruction::CancelOrderByClientId { client_id }).encoding(),
        }),
{
    let accounts = vec![
        AccountMeta::new(*mango_group_pk, false),
        AccountMeta::new_readonly(*owner_pk, true),
        AccountMeta::new_readonly(*margin_account_pk, false),
        AccountMeta::new_readonly(clock_sysvar_id(), false),
        AccountMeta::new_readonly(*dex_prog_id, false),
        AccountMeta::new(*spot_market_pk, false),
        AccountMeta::new(*bids_pk, false),
        AccountMeta::new(*asks_pk, false),
        AccountMeta::new(*open_orders_pk, false),
        AccountMeta::new_readonly(*signer_pk, false),
        AccountMeta::new(*dex_event_queue_pk, false),
    ];

    let instr = MangoInstruction::CancelOrderByClientId { client_id };
    let data = instr.pack();
    Ok(Instruction { program_id: *program_id, accounts, data })
}

} // verus!
