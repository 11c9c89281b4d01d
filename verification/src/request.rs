//! Requests to the program: who is addressed, which accounts are handed
//! over and in what order, and the encoded instruction.
//!
//! The program finds its accounts by position, so the order of the account
//! list and the two flags of each entry are part of the protocol.
use vstd::prelude::*;

verus! {

/// The address of an account: 32 bytes.
#[derive(Clone, Copy, Debug, PartialEq, Eq, Hash)]
pub struct Pubkey(pub [u8; 32]);

impl View for Pubkey {
    type V = Seq<u8>;

    open spec fn view(&self) -> Seq<u8> {
        self.0@
    }
}

impl Pubkey {
    /// The address made of the 32 bytes.
    pub fn new_from_array(pubkey_array: [u8; 32]) -> (pubkey: Pubkey)
        ensures
            pubkey@ == pubkey_array@,
    {
        Pubkey(pubkey_array)
    }

    /// The 32 bytes of the address.
    pub fn to_bytes(self) -> (bytes: [u8; 32])
        ensures
            bytes@ == self@,
    {
        self.0
    }
}

/// One entry of an account list, as contracts speak of it.
#[verifier::ext_equal]
pub struct AccountMetaView {
    pub pubkey: Seq<u8>,
    pub is_signer: bool,
    pub is_writable: bool,
}

/// One entry of an account list: an address, whether the account must have
/// signed the transaction, and whether the program may change the account.
#[derive(Clone, Debug, PartialEq, Eq)]
pub struct AccountMeta {
    pub pubkey: Pubkey,
    pub is_signer: bool,
    pub is_writable: bool,
}

impl View for AccountMeta {
    type V = AccountMetaView;

    open spec fn view(&self) -> AccountMetaView {
        AccountMetaView {
            pubkey: self.pubkey@,
            is_signer: self.is_signer,
            is_writable: self.is_writable,
        }
    }
}

impl AccountMeta {
    /// An entry for an account that the program may change.
    pub fn new(pubkey: Pubkey, is_signer: bool) -> (meta: AccountMeta)
        ensures
            meta@ == (AccountMetaView { pubkey: pubkey@, is_signer, is_writable: true }),
    {
        AccountMeta { pubkey, is_signer, is_writable: true }
    }

    /// An entry for an account that the program may only read.
    pub fn new_readonly(pubkey: Pubkey, is_signer: bool) -> (meta: AccountMeta)
        ensures
            meta@ == (AccountMetaView { pubkey: pubkey@, is_signer, is_writable: false }),
    {
        AccountMeta { pubkey, is_signer, is_writable: false }
    }
}

/// A request, as contracts speak of it.
#[verifier::ext_equal]
pub struct InstructionView {
    pub program_id: Seq<u8>,
    pub accounts: Seq<AccountMetaView>,
    pub data: Seq<u8>,
}

/// A request to a program: the program's address, the ordered account
/// list, and the bytes that the program is to interpret.
#[derive(Clone, Debug, PartialEq, Eq)]
pub struct Instruction {
    pub program_id: Pubkey,
    pub accounts: Vec<AccountMeta>,
    pub data: Vec<u8>,
}

/// The entries of an account list, as contracts speak of them.
pub open spec fn entries(accounts: Seq<AccountMeta>) -> Seq<AccountMetaView> {
    Seq::new(accounts.len(), |i: int| accounts[i]@)
}

impl View for Instruction {
    type V = InstructionView;

    open spec fn view(&self) -> InstructionView {
        InstructionView {
            program_id: self.program_id@,
            accounts: entries(self.accounts@),
            data: self.data@,
        }
    }
}

/// A non-signer account that the program may change.
pub open spec fn writable(pubkey: Seq<u8>) -> AccountMetaView {
    AccountMetaView { pubkey, is_signer: false, is_writable: true }
}

/// A non-signer account that the program may only read.
pub open spec fn readonly(pubkey: Seq<u8>) -> AccountMetaView {
    AccountMetaView { pubkey, is_signer: false, is_writable: false }
}

/// An account that must have signed and that the program may only read.
pub open spec fn signer(pubkey: Seq<u8>) -> AccountMetaView {
    AccountMetaView { pubkey, is_signer: true, is_writable: false }
}

/// One non-signer entry per address, in the order of the addresses, all
/// writable or all read-only.
pub open spec fn group(pubkeys: Seq<Pubkey>, is_writable: bool) -> Seq<AccountMetaView> {
    Seq::new(
        pubkeys.len(),
        |i: int| AccountMetaView { pubkey: pubkeys[i]@, is_signer: false, is_writable },
    )
}

/// The address of the rent sysvar, `SysvarRent111111111111111111111111111111111`.
pub open spec fn rent_sysvar_address() -> Seq<u8> {
    seq![
        6u8, 167, 213, 23, 25, 44, 92, 81, 33, 140, 201, 76, 61, 74, 241, 127,
        88, 218, 238, 8, 155, 161, 253, 68, 227, 219, 217, 138, 0, 0, 0, 0,
    ]
}

/// The address of the clock sysvar, `SysvarC1ock11111111111111111111111111111111`.
pub open spec fn clock_sysvar_address() -> Seq<u8> {
    seq![
        6u8, 167, 213, 23, 24, 199, 116, 201, 40, 86, 99, 152, 105, 29, 94, 182,
        139, 94, 184, 163, 155, 75, 109, 92, 115, 85, 91, 33, 0, 0, 0, 0,
    ]
}

/// The address of the token program, `TokenkegQfeZyiNwAJbNbGKPFXCWuBvf9Ss623VQ5DA`.
pub open spec fn token_program_address() -> Seq<u8> {
    seq![
        6u8, 221, 246, 225, 215, 101, 161, 147, 217, 203, 225, 70, 206, 235, 121, 172,
        28, 180, 133, 237, 95, 91, 55, 145, 58, 140, 245, 133, 126, 255, 0, 169,
    ]
}

/// Appends one non-signer entry per address to `accounts`, in the order of
/// the addresses.
pub fn extend_accounts(accounts: &mut Vec<AccountMeta>, pubkeys: &[Pubkey], is_writable: bool)
    ensures
        entries(final(accounts)@) == entries(old(accounts)@) + group(pubkeys@, is_writable),
{
    let ghost start = accounts@;
    let mut i: usize = 0;
    while i < pubkeys.len()
        invariant
            i <= pubkeys@.len(),
            accounts@.len() == start.len() + i,
            forall|j: int| 0 <= j < start.len() ==> accounts@[j] == start[j],
            forall|j: int|
                0 <= j < i ==> (#[trigger] accounts@[start.len() + j])@ == group(
                    pubkeys@,
                    is_writable,
                )[j],
        decreases pubkeys@.len() - i,
    {
        let meta = if is_writable {
            AccountMeta::new(pubkeys[i], false)
        } else {
            AccountMeta::new_readonly(pubkeys[i], false)
        };
        accounts.push(meta);
        i = i + 1;
    }
    proof {
        assert(entries(accounts@) =~= entries(start) + group(pubkeys@, is_writable)) by {
            assert forall|k: int| 0 <= k < accounts@.len() implies entries(accounts@)[k] == (
            entries(start) + group(pubkeys@, is_writable))[k] by {
                if k >= start.len() {
                    let j = k - start.len();
                    assert(accounts@[start.len() + j]@ == group(pubkeys@, is_writable)[j]);
                }
            }
        }
    }
}

/// The rent sysvar's address, taken from `solana_program::sysvar::rent::ID`.
/// Trusted, not proved: that constant is declared as the address written
/// `SysvarRent111111111111111111111111111111111`, whose 32 bytes
/// `rent_sysvar_address` lists.
#[verifier::external_body]
pub(crate) fn rent_sysvar_id() -> (id: Pubkey)
    ensures
        id@ == rent_sysvar_address(),
{
    Pubkey(solana_program::sysvar::rent::ID.to_bytes())
}

/// The clock sysvar's address, taken from `solana_program::sysvar::clock::ID`.
/// Trusted, not proved: that constant is declared as the address written
/// `SysvarC1ock11111111111111111111111111111111`, whose 32 bytes
/// `clock_sysvar_address` lists.
#[verifier::external_body]
pub(crate) fn clock_sysvar_id() -> (id: Pubkey)
    ensures
        id@ == clock_sysvar_address(),
{
    Pubkey(solana_program::sysvar::clock::ID.to_bytes())
}

/// The token program's address, taken from `spl_token::ID`. Trusted, not
/// proved: that constant is declared as the address written
/// `TokenkegQfeZyiNwAJbNbGKPFXCWuBvf9Ss623VQ5DA`, whose 32 bytes
/// `token_program_address` lists.
#[verifier::external_body]
pub(crate) fn token_program_id() -> (id: Pubkey)
    ensures
        id@ == token_program_address(),
{
    Pubkey(spl_token::ID.to_bytes())
}

/// Makes `solana_program::program_error::ProgramError` known to the verifier
/// as an opaque type. Nothing is claimed of its values: the builders of
/// this crate return it in their signatures, as every entry point of the
/// program does, and never give one.
#[verifier::external_type_specification]
#[verifier::external_body]
pub struct ExProgramError(solana_program::program_error::ProgramError);

} // verus!
