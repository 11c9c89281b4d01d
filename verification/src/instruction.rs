//! The instructions of the program and their wire format.
//!
//! An encoded instruction is a 4-byte little-endian tag followed by the
//! fields of the variant that the tag selects, each little-endian and of
//! fixed width, with nothing between them. Bytes after the last field are
//! ignored.
use crate::dex::{unpack_dex_new_order_v3, CancelOrderInstructionV2, NewOrderInstructionV3, Side};
use crate::fixed_point::U64F64;
use crate::state::NUM_TOKENS;
use crate::wire::{
    array_at, field, le_bytes, read_u128, read_u32, read_u64, u128_at, u32_at, u64_at, write_u128,
    write_u32, write_u64,
};
use vstd::prelude::*;
use vstd::slice::slice_subrange;

verus! {

/// What a client may ask of the program. The accounts that each request
/// carries are listed with the function that builds the request.
#[derive(Clone, Debug, PartialEq)]
#[allow(inconsistent_fields)]
pub enum MangoInstruction {
    /// Initialize a group of lending pools that can be cross margined.
    InitMangoGroup { signer_nonce: u64, maint_coll_ratio: U64F64, init_coll_ratio: U64F64 },
    /// Initialize a margin account for a user.
    InitMarginAccount,
    /// Deposit funds into a margin account, to be used as collateral and to
    /// earn interest.
    Deposit { quantity: u64 },
    /// Withdraw funds that were deposited earlier.
    Withdraw { quantity: u64 },
    /// Borrow against the collateral of a margin account.
    Borrow { token_index: usize, quantity: u64 },
    /// Use this token's deposits to reduce what is borrowed of it.
    SettleBorrow { token_index: usize, quantity: u64 },
    /// Take over a margin account that is below the maintenance ratio by
    /// depositing funds: one quantity per token slot.
    Liquidate { deposit_quantities: [u64; NUM_TOKENS] },
    /// Deposit SRM into the group's fee vault.
    DepositSrm { quantity: u64 },
    /// Withdraw SRM owed to this margin account.
    WithdrawSrm { quantity: u64 },
    /// Place an order on the order book with the margin account's funds.
    PlaceOrder { order: NewOrderInstructionV3 },
    /// Settle all funds from the order book's open orders into the margin
    /// account.
    SettleFunds,
    /// Cancel an order by its identifier.
    CancelOrder { order: CancelOrderInstructionV2 },
    /// Cancel an order by the identifier that the client gave it.
    CancelOrderByClientId { client_id: u64 },
}

/// The largest tag that selects a variant.
pub const MAX_TAG: u32 = 12;

/// The token index that stands in the first 8 bytes of `data`. An index is a
/// word of the machine and always travels in 8 bytes; there is none where
/// the 8 bytes spell a number that no word holds, which cannot be on a
/// machine with words of 64 bits.
pub open spec fn token_index_at(data: Seq<u8>) -> Option<usize> {
    if u64_at(data, 0) <= usize::MAX {
        Some(u64_at(data, 0) as usize)
    } else {
        None
    }
}

/// The token quantities that stand at the start of `data`, one per token
/// slot, 8 bytes each.
pub open spec fn quantities_at(data: Seq<u8>) -> Seq<u64> {
    Seq::new(NUM_TOKENS as nat, |i: int| u64_at(data, 8 * i))
}

/// The array whose first `filled` elements are those of `quantities` and
/// whose other elements are zero.
pub open spec fn quantities_array_upto(quantities: Seq<u64>, filled: nat) -> [u64; NUM_TOKENS]
    decreases filled,
{
    if filled == 0 {
        [0u64; NUM_TOKENS]
    } else {
        vstd::array::spec_array_update(
            quantities_array_upto(quantities, (filled - 1) as nat),
            filled - 1,
            quantities[filled - 1],
        )
    }
}

/// The array that holds the elements of `quantities`, a sequence with one
/// element per token slot.
pub open spec fn quantities_array(quantities: Seq<u64>) -> [u64; NUM_TOKENS] {
    quantities_array_upto(quantities, NUM_TOKENS as nat)
}

/// The first `filled` elements of the array are those of the sequence.
pub proof fn lemma_quantities_array_upto(quantities: Seq<u64>, filled: nat)
    requires
        filled <= NUM_TOKENS,
    ensures
        forall|i: int|
            0 <= i < filled ==> quantities_array_upto(quantities, filled)@[i] == quantities[i],
    decreases filled,
{
    if filled > 0 {
        lemma_quantities_array_upto(quantities, (filled - 1) as nat);
    }
}

/// The array of a sequence with one element per token slot holds that
/// sequence.
pub proof fn lemma_quantities_array_view(quantities: Seq<u64>)
    requires
        quantities.len() == NUM_TOKENS,
    ensures
        quantities_array(quantities)@ == quantities,
{
    lemma_quantities_array_upto(quantities, NUM_TOKENS as nat);
    assert(quantities_array(quantities)@ =~= quantities);
}

/// The bytes of the quantities, one after the other, 8 bytes each.
pub open spec fn quantities_encoding(quantities: Seq<u64>) -> Seq<u8>
    decreases quantities.len(),
{
    if quantities.len() == 0 {
        Seq::empty()
    } else {
        quantities_encoding(quantities.drop_last()) + le_bytes(quantities.last() as nat, 8)
    }
}

/// An array is the array of its own elements.
pub proof fn lemma_quantities_array(array: [u64; NUM_TOKENS])
    ensures
        quantities_array(array@) == array,
{
    lemma_quantities_array_view(array@);
    assert(quantities_array(array@) =~= array);
}

impl MangoInstruction {
    /// The tag that selects this variant on the wire.
    pub open spec fn tag(&self) -> nat {
        match self {
            MangoInstruction::InitMangoGroup { .. } => 0,
            MangoInstruction::InitMarginAccount => 1,
            MangoInstruction::Deposit { .. } => 2,
            MangoInstruction::Withdraw { .. } => 3,
            MangoInstruction::Borrow { .. } => 4,
            MangoInstruction::SettleBorrow { .. } => 5,
            MangoInstruction::Liquidate { .. } => 6,
            MangoInstruction::DepositSrm { .. } => 7,
            MangoInstruction::WithdrawSrm { .. } => 8,
            MangoInstruction::PlaceOrder { .. } => 9,
            MangoInstruction::SettleFunds => 10,
            MangoInstruction::CancelOrder { .. } => 11,
            MangoInstruction::CancelOrderByClientId { .. } => 12,
        }
    }

    /// How many bytes the fields of the variant with tag `tag` take.
    pub open spec fn payload_width(tag: nat) -> nat {
        if tag == 0 {
            40
        } else if tag == 2 || tag == 3 || tag == 7 || tag == 8 || tag == 12 {
            8
        } else if tag == 4 || tag == 5 {
            16
        } else if tag == 6 {
            8 * (NUM_TOKENS as nat)
        } else if tag == 9 {
            46
        } else if tag == 11 {
            20
        } else {
            0
        }
    }

    /// An instruction is well formed when the order it places, if it places
    /// one, is.
    pub open spec fn well_formed(&self) -> bool {
        self matches MangoInstruction::PlaceOrder { order } ==> order.well_formed()
    }

    /// The bytes of the fields, in order.
    pub open spec fn payload(&self) -> Seq<u8> {
        match self {
            MangoInstruction::InitMangoGroup {
                signer_nonce,
                maint_coll_ratio,
                init_coll_ratio,
            } => {
                le_bytes(*signer_nonce as nat, 8) + le_bytes(maint_coll_ratio.bits as nat, 16)
                    + le_bytes(init_coll_ratio.bits as nat, 16)
            },
            MangoInstruction::InitMarginAccount => Seq::empty(),
            MangoInstruction::Deposit { quantity } => le_bytes(*quantity as nat, 8),
            MangoInstruction::Withdraw { quantity } => le_bytes(*quantity as nat, 8),
            MangoInstruction::Borrow { token_index, quantity } => {
                le_bytes(*token_index as nat, 8) + le_bytes(*quantity as nat, 8)
            },
            MangoInstruction::SettleBorrow { token_index, quantity } => {
                le_bytes(*token_index as nat, 8) + le_bytes(*quantity as nat, 8)
            },
            MangoInstruction::Liquidate { deposit_quantities } => quantities_encoding(
                deposit_quantities@,
            ),
            MangoInstruction::DepositSrm { quantity } => le_bytes(*quantity as nat, 8),
            MangoInstruction::WithdrawSrm { quantity } => le_bytes(*quantity as nat, 8),
            MangoInstruction::PlaceOrder { order } => order.encoding(),
            MangoInstruction::SettleFunds => Seq::empty(),
            MangoInstruction::CancelOrder { order } => order.encoding(),
            MangoInstruction::CancelOrderByClientId { client_id } => le_bytes(*client_id as nat, 8),
        }
    }

    /// The canonical bytes of the instruction: the tag in 4 bytes, then the
    /// fields.
    pub open spec fn encoding(&self) -> Seq<u8> {
        le_bytes(self.tag(), 4) + self.payload()
    }

    /// The instruction with tag `tag` whose fields stand at the start of
    /// `data`, for a tag that selects a variant and `data` long enough for
    /// its fields.
    pub open spec fn decode_payload(tag: nat, data: Seq<u8>) -> Option<MangoInstruction> {
        if tag == 0 {
            Some(
                MangoInstruction::InitMangoGroup {
                    signer_nonce: u64_at(data, 0),
                    maint_coll_ratio: U64F64 { bits: u128_at(data, 8) },
                    init_coll_ratio: U64F64 { bits: u128_at(data, 24) },
                },
            )
        } else if tag == 1 {
            Some(MangoInstruction::InitMarginAccount)
        } else if tag == 2 {
            Some(MangoInstruction::Deposit { quantity: u64_at(data, 0) })
        } else if tag == 3 {
            Some(MangoInstruction::Withdraw { quantity: u64_at(data, 0) })
        } else if tag == 4 {
            match token_index_at(data) {
                Some(token_index) => Some(
                    MangoInstruction::Borrow { token_index, quantity: u64_at(data, 8) },
                ),
                None => None,
            }
        } else if tag == 5 {
            match token_index_at(data) {
                Some(token_index) => Some(
                    MangoInstruction::SettleBorrow { token_index, quantity: u64_at(data, 8) },
                ),
                None => None,
            }
        } else if tag == 6 {
            Some(
                MangoInstruction::Liquidate {
                    deposit_quantities: quantities_array(quantities_at(data)),
                },
            )
        } else if tag == 7 {
            Some(MangoInstruction::DepositSrm { quantity: u64_at(data, 0) })
        } else if tag == 8 {
            Some(MangoInstruction::WithdrawSrm { quantity: u64_at(data, 0) })
        } else if tag == 9 {
            match NewOrderInstructionV3::decoding(data) {
                Some(order) => Some(MangoInstruction::PlaceOrder { order }),
                None => None,
            }
        } else if tag == 10 {
            Some(MangoInstruction::SettleFunds)
        } else if tag == 11 {
            match Side::of_number(u32_at(data, 0) as nat) {
                Some(side) => Some(
                    MangoInstruction::CancelOrder {
                        order: CancelOrderInstructionV2 { side, order_id: u128_at(data, 4) },
                    },
                ),
                None => None,
            }
        } else {
            Some(MangoInstruction::CancelOrderByClientId { client_id: u64_at(data, 0) })
        }
    }

    /// The instruction that `input` holds, if it holds one: `input` has a
    /// tag, the tag selects a variant, the bytes after the tag are at least
    /// as many as the variant's fields take, and the fields have legal
    /// values.
    pub open spec fn decoding(input: Seq<u8>) -> Option<MangoInstruction> {
        if input.len() < 4 {
            None
        } else {
            let tag = field(input, 0, 4);
            let data = input.skip(4);
            if tag > MAX_TAG || data.len() < Self::payload_width(tag) {
                None
            } else {
                Self::decode_payload(tag, data)
            }
        }
    }
}

/// A field that lies within the first `n` bytes of `s` is the same field of
/// those `n` bytes alone.
pub proof fn lemma_field_of_prefix(s: Seq<u8>, n: int, at: int, width: int)
    requires
        0 <= at,
        0 <= width,
        at + width <= n <= s.len(),
    ensures
        field(s.subrange(0, n), at, width) == field(s, at, width),
{
    assert(s.subrange(0, n).subrange(at, at + width) =~= s.subrange(at, at + width));
}

/// Decoding an order looks at the first 46 bytes only.
pub proof fn lemma_order_decoding_reads_prefix(data: Seq<u8>)
    requires
        data.len() >= 46,
    ensures
        NewOrderInstructionV3::decoding(data.subrange(0, 46)) == NewOrderInstructionV3::decoding(
            data,
        ),
{
    lemma_field_of_prefix(data, 46, 0, 4);
    lemma_field_of_prefix(data, 46, 4, 8);
    lemma_field_of_prefix(data, 46, 12, 8);
    lemma_field_of_prefix(data, 46, 20, 8);
    lemma_field_of_prefix(data, 46, 28, 4);
    lemma_field_of_prefix(data, 46, 32, 4);
    lemma_field_of_prefix(data, 46, 36, 8);
    lemma_field_of_prefix(data, 46, 44, 2);
}

/// Reads the token index that stands in the first 8 bytes of `data`.
fn unpack_token_index(data: &[u8]) -> (token_index: Option<usize>)
    requires
        data@.len() >= 8,
    ensures
        token_index == token_index_at(data@),
{
    let number = read_u64(data, 0);
    if number > usize::MAX as u64 {
        None
    } else {
        Some(number as usize)
    }
}

/// Reads one quantity per token slot from the start of `data`.
fn unpack_quantities(data: &[u8]) -> (quantities: [u64; NUM_TOKENS])
    requires
        data@.len() >= 8 * NUM_TOKENS,
    ensures
        quantities@ == quantities_at(data@),
{
    let mut quantities = [0u64; NUM_TOKENS];
    let mut i: usize = 0;
    while i < NUM_TOKENS
        invariant
            i <= NUM_TOKENS,
            data@.len() >= 8 * NUM_TOKENS,
            quantities@.len() == NUM_TOKENS,
            forall|j: int| 0 <= j < i ==> quantities@[j] == u64_at(data@, 8 * j),
        decreases NUM_TOKENS - i,
    {
        quantities[i] = read_u64(data, 8 * i);
        i = i + 1;
    }
    proof {
        assert(quantities@ =~= quantities_at(data@));
    }
    quantities
}

impl MangoInstruction {
    /// Decodes an instruction. Gives `None` for every input that holds none:
    /// one shorter than a tag, with an unknown tag, with fewer bytes than the
    /// variant's fields take, or with an illegal field value.
    pub fn unpack(input: &[u8]) -> (instruction: Option<MangoInstruction>)
        ensures
            instruction == Self::decoding(input@),
    {
        if input.len() < 4 {
            return None;
        }
        let discrim = read_u32(input, 0);
        let data = slice_subrange(input, 4, input.len());
        Some(
            match discrim {
                0 => {
                    if data.len() < 40 {
                        return None;
                    }
                    let signer_nonce = read_u64(data, 0);
                    let maint_coll_ratio = U64F64::from_le_bytes(array_at(data, 8));
                    let init_coll_ratio = U64F64::from_le_bytes(array_at(data, 24));
                    MangoInstruction::InitMangoGroup {
                        signer_nonce,
                        maint_coll_ratio,
                        init_coll_ratio,
                    }
                },
                1 => MangoInstruction::InitMarginAccount,
                2 => {
                    if data.len() < 8 {
                        return None;
                    }
                    MangoInstruction::Deposit { quantity: read_u64(data, 0) }
                },
                3 => {
                    if data.len() < 8 {
                        return None;
                    }
                    MangoInstruction::Withdraw { quantity: read_u64(data, 0) }
                },
                4 => {
                    if data.len() < 16 {
                        return None;
                    }
                    let token_index = match unpack_token_index(data) {
                        Some(token_index) => token_index,
                        None => {
                            return None;
                        },
                    };
                    MangoInstruction::Borrow { token_index, quantity: read_u64(data, 8) }
                },
                5 => {
                    if data.len() < 16 {
                        return None;
                    }
                    let token_index = match unpack_token_index(data) {
                        Some(token_index) => token_index,
                        None => {
                            return None;
                        },
                    };
                    MangoInstruction::SettleBorrow { token_index, quantity: read_u64(data, 8) }
                },
                6 => {
                    if data.len() < 8 * NUM_TOKENS {
                        return None;
                    }
                    let deposit_quantities = unpack_quantities(data);
                    proof {
                        lemma_quantities_array(deposit_quantities);
                    }
                    MangoInstruction::Liquidate { deposit_quantities }
                },
                7 => {
                    if data.len() < 8 {
                        return None;
                    }
                    MangoInstruction::DepositSrm { quantity: read_u64(data, 0) }
                },
                8 => {
                    if data.len() < 8 {
                        return None;
                    }
                    MangoInstruction::WithdrawSrm { quantity: read_u64(data, 0) }
                },
                9 => {
                    if data.len() < 46 {
                        return None;
                    }
                    let data_arr: [u8; 46] = array_at(data, 0);
                    proof {
                        lemma_order_decoding_reads_prefix(data@);
                    }
                    let order = match unpack_dex_new_order_v3(&data_arr) {
                        Some(order) => order,
                        None => {
                            return None;
                        },
                    };
                    MangoInstruction::PlaceOrder { order }
                },
                10 => MangoInstruction::SettleFunds,
                11 => {
                    if data.len() < 20 {
                        return None;
                    }
                    let side = match read_u32(data, 0) {
                        0 => Side::Bid,
                        1 => Side::Ask,
                        _ => {
                            return None;
                        },
                    };
                    let order_id = read_u128(data, 4);
                    let order = CancelOrderInstructionV2 { side, order_id };
                    MangoInstruction::CancelOrder { order }
                },
                12 => {
                    if data.len() < 8 {
                        return None;
                    }
                    MangoInstruction::CancelOrderByClientId { client_id: read_u64(data, 0) }
                },
                _ => {
                    return None;
                },
            },
        )
    }
}

/// Appends the quantities to `out`, 8 bytes each.
fn pack_quantities(out: &mut Vec<u8>, quantities: &[u64; NUM_TOKENS])
    ensures
        final(out)@ == old(out)@ + quantities_encoding(quantities@),
{
    let ghost start = out@;
    let mut i: usize = 0;
    proof {
        assert(quantities@.take(0) =~= Seq::<u64>::empty());
        assert(out@ =~= start + quantities_encoding(quantities@.take(0)));
    }
    while i < NUM_TOKENS
        invariant
            i <= NUM_TOKENS,
            quantities@.len() == NUM_TOKENS,
            out@ == start + quantities_encoding(quantities@.take(i as int)),
        decreases NUM_TOKENS - i,
    {
        let ghost before = out@;
        write_u64(out, quantities[i]);
        proof {
            let next = quantities@.take(i + 1);
            assert(next.drop_last() =~= quantities@.take(i as int));
            assert(next.last() == quantities@[i as int]);
            assert(out@ =~= start + quantities_encoding(next));
        }
        i = i + 1;
    }
    proof {
        assert(quantities@.take(NUM_TOKENS as int) =~= quantities@);
    }
}

impl MangoInstruction {
    /// Encodes the instruction: the tag, then the fields.
    pub fn pack(&self) -> (out: Vec<u8>)
        ensures
            out@ == self.encoding(),
    {
        let mut out: Vec<u8> = Vec::new();
        match self {
            MangoInstruction::InitMangoGroup {
                signer_nonce,
                maint_coll_ratio,
                init_coll_ratio,
            } => {
                write_u32(&mut out, 0);
                write_u64(&mut out, *signer_nonce);
                write_u128(&mut out, maint_coll_ratio.to_bits());
                write_u128(&mut out, init_coll_ratio.to_bits());
            },
            MangoInstruction::InitMarginAccount => {
                write_u32(&mut out, 1);
            },
            MangoInstruction::Deposit { quantity } => {
                write_u32(&mut out, 2);
                write_u64(&mut out, *quantity);
            },
            MangoInstruction::Withdraw { quantity } => {
                write_u32(&mut out, 3);
                write_u64(&mut out, *quantity);
            },
            MangoInstruction::Borrow { token_index, quantity } => {
                write_u32(&mut out, 4);
                write_u64(&mut out, *token_index as u64);
                write_u64(&mut out, *quantity);
            },
            MangoInstruction::SettleBorrow { token_index, quantity } => {
                write_u32(&mut out, 5);
                write_u64(&mut out, *token_index as u64);
                write_u64(&mut out, *quantity);
            },
            MangoInstruction::Liquidate { deposit_quantities } => {
                write_u32(&mut out, 6);
                pack_quantities(&mut out, deposit_quantities);
            },
            MangoInstruction::DepositSrm { quantity } => {
                write_u32(&mut out, 7);
                write_u64(&mut out, *quantity);
            },
            MangoInstruction::WithdrawSrm { quantity } => {
                write_u32(&mut out, 8);
                write_u64(&mut out, *quantity);
            },
            MangoInstruction::PlaceOrder { order } => {
                write_u32(&mut out, 9);
                order.pack_into(&mut out);
            },
            MangoInstruction::SettleFunds => {
                write_u32(&mut out, 10);
            },
            MangoInstruction::CancelOrder { order } => {
                write_u32(&mut out, 11);
                write_u32(&mut out, order.side.to_primitive() as u32);
                write_u128(&mut out, order.order_id);
            },
            MangoInstruction::CancelOrderByClientId { client_id } => {
                write_u32(&mut out, 12);
                write_u64(&mut out, *client_id);
            },
        }
        proof {
            assert(out@ =~= self.encoding());
        }
        out
    }
}

} // verus!
