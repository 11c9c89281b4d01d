//! What holds of the wire format as a whole: decoding undoes encoding, and
//! the decoder refuses what the format forbids.
use crate::dex::{NewOrderInstructionV3, Side};
use crate::instruction::{
    lemma_quantities_array, lemma_quantities_array_view, quantities_at, quantities_encoding,
    token_index_at, MangoInstruction, MAX_TAG,
};
use crate::state::NUM_TOKENS;
use crate::wire::{
    field, le_bytes, lemma_le_bytes_len, lemma_le_bytes_of_le_value, lemma_le_value_bound,
    lemma_le_value_of_le_bytes, lemma_pow256_widths, pow256, u128_at, u32_at, u64_at,
};
use vstd::prelude::*;

verus! {

/// Where the bytes of a number stand in `s`, the field read there is the
/// number.
pub proof fn lemma_field_holds(s: Seq<u8>, at: int, x: nat, width: nat)
    requires
        0 <= at,
        at + width <= s.len(),
        x < pow256(width),
        s.subrange(at, at + width) == le_bytes(x, width),
    ensures
        field(s, at, width as int) == x,
{
    lemma_le_value_of_le_bytes(x, width);
}

/// The encoded quantities take 8 bytes each, and the quantity read at slot
/// `i` is the `i`-th that was written, whatever follows the last.
pub proof fn lemma_quantities_round_trip(quantities: Seq<u64>, trailing: Seq<u8>)
    ensures
        quantities_encoding(quantities).len() == 8 * quantities.len(),
        forall|i: int|
            0 <= i < quantities.len() ==> #[trigger] u64_at(
                quantities_encoding(quantities) + trailing,
                8 * i,
            ) == quantities[i],
    decreases quantities.len(),
{
    if quantities.len() > 0 {
        let front = quantities.drop_last();
        let last = quantities.last();
        let last_bytes = le_bytes(last as nat, 8);
        let all = quantities_encoding(quantities) + trailing;
        lemma_le_bytes_len(last as nat, 8);
        lemma_pow256_widths();
        lemma_quantities_round_trip(front, last_bytes + trailing);
        assert(all =~= quantities_encoding(front) + (last_bytes + trailing));
        assert forall|i: int| 0 <= i < quantities.len() implies #[trigger] u64_at(all, 8 * i)
            == quantities[i] by {
            if i < front.len() {
                assert(front[i] == quantities[i]);
            } else {
                assert(all.subrange(8 * i, 8 * i + 8) =~= last_bytes);
                lemma_field_holds(all, 8 * i, last as nat, 8);
            }
        }
    }
}

/// The fields of an instruction take as many bytes as its variant's fields
/// are wide.
pub proof fn lemma_payload_len(x: MangoInstruction)
    ensures
        x.payload().len() == MangoInstruction::payload_width(x.tag()),
        x.encoding().len() == 4 + MangoInstruction::payload_width(x.tag()),
        x.tag() <= MAX_TAG,
{
    lemma_le_bytes_len(x.tag(), 4);
    match x {
        MangoInstruction::InitMangoGroup { signer_nonce, maint_coll_ratio, init_coll_ratio } => {
            lemma_le_bytes_len(signer_nonce as nat, 8);
            lemma_le_bytes_len(maint_coll_ratio.bits as nat, 16);
            lemma_le_bytes_len(init_coll_ratio.bits as nat, 16);
        },
        MangoInstruction::InitMarginAccount => {},
        MangoInstruction::Deposit { quantity } => {
            lemma_le_bytes_len(quantity as nat, 8);
        },
        MangoInstruction::Withdraw { quantity } => {
            lemma_le_bytes_len(quantity as nat, 8);
        },
        MangoInstruction::Borrow { token_index, quantity } => {
            lemma_le_bytes_len(token_index as nat, 8);
            lemma_le_bytes_len(quantity as nat, 8);
        },
        MangoInstruction::SettleBorrow { token_index, quantity } => {
            lemma_le_bytes_len(token_index as nat, 8);
            lemma_le_bytes_len(quantity as nat, 8);
        },
        MangoInstruction::Liquidate { deposit_quantities } => {
            lemma_quantities_round_trip(deposit_quantities@, Seq::empty());
        },
        MangoInstruction::DepositSrm { quantity } => {
            lemma_le_bytes_len(quantity as nat, 8);
        },
        MangoInstruction::WithdrawSrm { quantity } => {
            lemma_le_bytes_len(quantity as nat, 8);
        },
        MangoInstruction::PlaceOrder { order } => {
            lemma_order_encoding_len(order);
        },
        MangoInstruction::SettleFunds => {},
        MangoInstruction::CancelOrder { order } => {
            lemma_le_bytes_len(order.side.number(), 4);
            lemma_le_bytes_len(order.order_id as nat, 16);
        },
        MangoInstruction::CancelOrderByClientId { client_id } => {
            lemma_le_bytes_len(client_id as nat, 8);
        },
    }
}

/// An encoded order is 46 bytes long.
pub proof fn lemma_order_encoding_len(order: NewOrderInstructionV3)
    ensures
        order.encoding().len() == 46,
{
    lemma_le_bytes_len(order.side.number(), 4);
    lemma_le_bytes_len(order.limit_price as nat, 8);
    lemma_le_bytes_len(order.max_coin_qty as nat, 8);
    lemma_le_bytes_len(order.max_native_pc_qty_including_fees as nat, 8);
    lemma_le_bytes_len(order.self_trade_behavior.number(), 4);
    lemma_le_bytes_len(order.order_type.number(), 4);
    lemma_le_bytes_len(order.client_order_id as nat, 8);
    lemma_le_bytes_len(order.limit as nat, 2);
}

/// Decoding the bytes of a well-formed order gives the order back, whatever
/// follows them.
pub proof fn lemma_order_round_trip(order: NewOrderInstructionV3, trailing: Seq<u8>)
    requires
        order.well_formed(),
    ensures
        NewOrderInstructionV3::decoding(order.encoding() + trailing) == Some(order),
{
    let data = order.encoding() + trailing;
    lemma_pow256_widths();
    lemma_order_encoding_len(order);
    lemma_le_bytes_len(order.side.number(), 4);
    lemma_le_bytes_len(order.limit_price as nat, 8);
    lemma_le_bytes_len(order.max_coin_qty as nat, 8);
    lemma_le_bytes_len(order.max_native_pc_qty_including_fees as nat, 8);
    lemma_le_bytes_len(order.self_trade_behavior.number(), 4);
    lemma_le_bytes_len(order.order_type.number(), 4);
    lemma_le_bytes_len(order.client_order_id as nat, 8);
    lemma_le_bytes_len(order.limit as nat, 2);
    assert(data.subrange(0, 4) =~= le_bytes(order.side.number(), 4));
    lemma_field_holds(data, 0, order.side.number(), 4);
    assert(data.subrange(4, 12) =~= le_bytes(order.limit_price as nat, 8));
    lemma_field_holds(data, 4, order.limit_price as nat, 8);
    assert(data.subrange(12, 20) =~= le_bytes(order.max_coin_qty as nat, 8));
    lemma_field_holds(data, 12, order.max_coin_qty as nat, 8);
    assert(data.subrange(20, 28) =~= le_bytes(
        order.max_native_pc_qty_including_fees as nat,
        8,
    ));
    lemma_field_holds(data, 20, order.max_native_pc_qty_including_fees as nat, 8);
    assert(data.subrange(28, 32) =~= le_bytes(order.self_trade_behavior.number(), 4));
    lemma_field_holds(data, 28, order.self_trade_behavior.number(), 4);
    assert(data.subrange(32, 36) =~= le_bytes(order.order_type.number(), 4));
    lemma_field_holds(data, 32, order.order_type.number(), 4);
    assert(data.subrange(36, 44) =~= le_bytes(order.client_order_id as nat, 8));
    lemma_field_holds(data, 36, order.client_order_id as nat, 8);
    assert(data.subrange(44, 46) =~= le_bytes(order.limit as nat, 2));
    lemma_field_holds(data, 44, order.limit as nat, 2);
}

/// Decoding the fields of a well-formed instruction under its own tag gives
/// the instruction back, whatever follows them.
pub proof fn lemma_payload_round_trip(x: MangoInstruction, trailing: Seq<u8>)
    requires
        x.well_formed(),
    ensures
        MangoInstruction::decode_payload(x.tag(), x.payload() + trailing) == Some(x),
{
    let data = x.payload() + trailing;
    lemma_pow256_widths();
    match x {
        MangoInstruction::InitMangoGroup { signer_nonce, maint_coll_ratio, init_coll_ratio } => {
            lemma_le_bytes_len(signer_nonce as nat, 8);
            lemma_le_bytes_len(maint_coll_ratio.bits as nat, 16);
            lemma_le_bytes_len(init_coll_ratio.bits as nat, 16);
            assert(data.subrange(0, 8) =~= le_bytes(signer_nonce as nat, 8));
            lemma_field_holds(data, 0, signer_nonce as nat, 8);
            assert(data.subrange(8, 24) =~= le_bytes(maint_coll_ratio.bits as nat, 16));
            lemma_field_holds(data, 8, maint_coll_ratio.bits as nat, 16);
            assert(data.subrange(24, 40) =~= le_bytes(init_coll_ratio.bits as nat, 16));
            lemma_field_holds(data, 24, init_coll_ratio.bits as nat, 16);
        },
        MangoInstruction::InitMarginAccount => {},
        MangoInstruction::Deposit { quantity } => {
            lemma_single_quantity_round_trip(quantity, trailing);
        },
        MangoInstruction::Withdraw { quantity } => {
            lemma_single_quantity_round_trip(quantity, trailing);
        },
        MangoInstruction::Borrow { token_index, quantity } => {
            lemma_index_and_quantity_round_trip(token_index, quantity, trailing);
        },
        MangoInstruction::SettleBorrow { token_index, quantity } => {
            lemma_index_and_quantity_round_trip(token_index, quantity, trailing);
        },
        MangoInstruction::Liquidate { deposit_quantities } => {
            lemma_quantities_round_trip(deposit_quantities@, trailing);
            assert(quantities_at(data) =~= deposit_quantities@);
            lemma_quantities_array(deposit_quantities);
        },
        MangoInstruction::DepositSrm { quantity } => {
            lemma_single_quantity_round_trip(quantity, trailing);
        },
        MangoInstruction::WithdrawSrm { quantity } => {
            lemma_single_quantity_round_trip(quantity, trailing);
        },
        MangoInstruction::PlaceOrder { order } => {
            lemma_order_round_trip(order, trailing);
        },
        MangoInstruction::SettleFunds => {},
        MangoInstruction::CancelOrder { order } => {
            lemma_le_bytes_len(order.side.number(), 4);
            lemma_le_bytes_len(order.order_id as nat, 16);
            assert(data.subrange(0, 4) =~= le_bytes(order.side.number(), 4));
            lemma_field_holds(data, 0, order.side.number(), 4);
            assert(data.subrange(4, 20) =~= le_bytes(order.order_id as nat, 16));
            lemma_field_holds(data, 4, order.order_id as nat, 16);
        },
        MangoInstruction::CancelOrderByClientId { client_id } => {
            lemma_single_quantity_round_trip(client_id, trailing);
        },
    }
}

/// A 64-bit number written alone is read back at offset 0.
proof fn lemma_single_quantity_round_trip(quantity: u64, trailing: Seq<u8>)
    ensures
        u64_at(le_bytes(quantity as nat, 8) + trailing, 0) == quantity,
{
    let data = le_bytes(quantity as nat, 8) + trailing;
    lemma_pow256_widths();
    lemma_le_bytes_len(quantity as nat, 8);
    assert(data.subrange(0, 8) =~= le_bytes(quantity as nat, 8));
    lemma_field_holds(data, 0, quantity as nat, 8);
}

/// A token index and a quantity written one after the other are read back
/// at offsets 0 and 8.
proof fn lemma_index_and_quantity_round_trip(token_index: usize, quantity: u64, trailing: Seq<u8>)
    ensures
        token_index_at(le_bytes(token_index as nat, 8) + le_bytes(quantity as nat, 8) + trailing)
            == Some(token_index),
        u64_at(le_bytes(token_index as nat, 8) + le_bytes(quantity as nat, 8) + trailing, 8)
            == quantity,
{
    let data = le_bytes(token_index as nat, 8) + le_bytes(quantity as nat, 8) + trailing;
    lemma_pow256_widths();
    lemma_le_bytes_len(token_index as nat, 8);
    lemma_le_bytes_len(quantity as nat, 8);
    assert(data.subrange(0, 8) =~= le_bytes(token_index as nat, 8));
    lemma_field_holds(data, 0, token_index as nat, 8);
    assert(data.subrange(8, 16) =~= le_bytes(quantity as nat, 8));
    lemma_field_holds(data, 8, quantity as nat, 8);
}

/// Round trip, with leniency: decoding the encoding of a well-formed
/// instruction gives the instruction back, and so does decoding the encoding
/// followed by any further bytes.
pub proof fn lemma_decoding_of_encoding(x: MangoInstruction, trailing: Seq<u8>)
    requires
        x.well_formed(),
    ensures
        MangoInstruction::decoding(x.encoding() + trailing) == Some(x),
{
    let input = x.encoding() + trailing;
    lemma_pow256_widths();
    lemma_payload_len(x);
    lemma_le_bytes_len(x.tag(), 4);
    assert(input.subrange(0, 4) =~= le_bytes(x.tag(), 4));
    lemma_field_holds(input, 0, x.tag(), 4);
    assert(input.skip(4) =~= x.payload() + trailing);
    lemma_payload_round_trip(x, trailing);
}

/// Round trip: decoding the encoding of a well-formed instruction gives the
/// instruction back.
pub proof fn lemma_round_trip(x: MangoInstruction)
    requires
        x.well_formed(),
    ensures
        MangoInstruction::decoding(x.encoding()) == Some(x),
{
    lemma_decoding_of_encoding(x, Seq::empty());
    assert(x.encoding() + Seq::<u8>::empty() =~= x.encoding());
}

/// What decodes at all decodes to a well-formed instruction.
pub proof fn lemma_decoded_is_well_formed(input: Seq<u8>)
    ensures
        MangoInstruction::decoding(input) matches Some(x) ==> x.well_formed(),
{
}

/// An input too short to hold a tag holds no instruction.
pub proof fn lemma_missing_tag_rejected(input: Seq<u8>)
    requires
        input.len() < 4,
    ensures
        MangoInstruction::decoding(input) is None,
{
}

/// Tag rejection: an input whose first 4 bytes spell a number above the
/// largest tag holds no instruction, whatever follows them.
pub proof fn lemma_unknown_tag_rejected(input: Seq<u8>)
    requires
        input.len() >= 4,
        field(input, 0, 4) > MAX_TAG,
    ensures
        MangoInstruction::decoding(input) is None,
{
}

/// Truncation rejection: an input with fewer bytes after the tag than the
/// fields of the tag's variant take holds no instruction.
pub proof fn lemma_short_payload_rejected(input: Seq<u8>)
    requires
        input.len() >= 4,
        input.len() - 4 < MangoInstruction::payload_width(field(input, 0, 4)),
    ensures
        MangoInstruction::decoding(input) is None,
{
}

/// Truncation rejection, by variant: the encoding of any instruction, cut
/// one byte short, holds no instruction.
pub proof fn lemma_one_byte_short_rejected(x: MangoInstruction)
    ensures
        MangoInstruction::decoding(x.encoding().drop_last()) is None,
{
    let input = x.encoding().drop_last();
    lemma_payload_len(x);
    lemma_pow256_widths();
    lemma_le_bytes_len(x.tag(), 4);
    if input.len() >= 4 {
        assert(input.subrange(0, 4) =~= le_bytes(x.tag(), 4));
        lemma_field_holds(input, 0, x.tag(), 4);
    }
}

/// Zero-quantity rejection: an order whose price, base-quantity limit or
/// quote-quantity limit is encoded as zero is not placed.
pub proof fn lemma_zero_quantity_order_rejected(input: Seq<u8>)
    requires
        input.len() >= 4,
        field(input, 0, 4) == 9,
        u64_at(input.skip(4), 4) == 0 || u64_at(input.skip(4), 12) == 0 || u64_at(
            input.skip(4),
            20,
        ) == 0,
    ensures
        MangoInstruction::decoding(input) is None,
{
}

/// Enumerator rejection in orders: an order whose side, self-trade policy or
/// order type is encoded as a number that stands for none is not placed.
pub proof fn lemma_unknown_order_enumerator_rejected(input: Seq<u8>)
    requires
        input.len() >= 4,
        field(input, 0, 4) == 9,
        u32_at(input.skip(4), 0) > 1 || u32_at(input.skip(4), 28) > 2 || u32_at(
            input.skip(4),
            32,
        ) > 2,
    ensures
        MangoInstruction::decoding(input) is None,
{
}

/// Enumerator rejection: a cancellation whose side is encoded as anything
/// but 0 or 1 is refused.
pub proof fn lemma_unknown_cancel_side_rejected(input: Seq<u8>)
    requires
        input.len() >= 4,
        field(input, 0, 4) == 11,
        u32_at(input.skip(4), 0) > 1,
    ensures
        MangoInstruction::decoding(input) is None,
{
}

/// A cancellation with side 0 or 1 and 16 more bytes decodes, whatever
/// number those bytes spell: the order identifier is unrestricted.
pub proof fn lemma_cancel_order_decodes(input: Seq<u8>)
    requires
        input.len() >= 24,
        field(input, 0, 4) == 11,
        u32_at(input.skip(4), 0) <= 1,
    ensures
        MangoInstruction::decoding(input) matches Some(MangoInstruction::CancelOrder { order })
            && order.side == Side::of_number(u32_at(input.skip(4), 0) as nat)->Some_0
            && order.order_id == u128_at(input.skip(4), 4),
{
}

/// Array-length binding: under the liquidation tag, fewer than 8 bytes per
/// token slot hold no instruction, and 8 bytes per token slot or more hold
/// one quantity per token slot, in the order in which they stand.
pub proof fn lemma_liquidate_quantities(input: Seq<u8>)
    requires
        input.len() >= 4,
        field(input, 0, 4) == 6,
    ensures
        input.len() - 4 < 8 * NUM_TOKENS ==> MangoInstruction::decoding(input) is None,
        input.len() - 4 >= 8 * NUM_TOKENS ==> (MangoInstruction::decoding(input) matches Some(
            MangoInstruction::Liquidate { deposit_quantities },
        ) && deposit_quantities@.len() == NUM_TOKENS && forall|i: int|
            0 <= i < NUM_TOKENS ==> deposit_quantities@[i] == u64_at(input.skip(4), 8 * i)),
{
    if input.len() - 4 >= 8 * NUM_TOKENS {
        lemma_quantities_array_view(quantities_at(input.skip(4)));
    }
}

/// The bytes of a field are the bytes of the number that the field spells.
pub proof fn lemma_le_bytes_of_field(s: Seq<u8>, at: int, width: nat)
    requires
        0 <= at,
        at + width <= s.len(),
    ensures
        le_bytes(field(s, at, width as int), width) == s.subrange(at, at + width),
        field(s, at, width as int) < pow256(width),
{
    lemma_le_bytes_of_le_value(s.subrange(at, at + width));
    lemma_le_value_bound(s.subrange(at, at + width));
}

/// The quantities read from `data`, encoded, are the bytes they were read
/// from.
pub proof fn lemma_quantities_encoding_of_decoding(data: Seq<u8>, quantities: Seq<u64>)
    requires
        8 * quantities.len() <= data.len(),
        forall|i: int| 0 <= i < quantities.len() ==> quantities[i] == u64_at(data, 8 * i),
    ensures
        quantities_encoding(quantities) == data.subrange(0, 8 * (quantities.len() as int)),
    decreases quantities.len(),
{
    if quantities.len() == 0 {
        assert(quantities_encoding(quantities) =~= data.subrange(0, 0));
    } else {
        let front = quantities.drop_last();
        let at: int = 8 * (front.len() as int);
        lemma_quantities_encoding_of_decoding(data, front);
        lemma_le_bytes_of_field(data, at, 8);
        lemma_pow256_widths();
        assert(quantities.last() == u64_at(data, at));
        assert(quantities_encoding(quantities) =~= data.subrange(
            0,
            8 * (quantities.len() as int),
        ));
    }
}

/// Decoding an order and encoding what came out gives the 46 bytes that
/// were decoded.
pub proof fn lemma_order_encoding_of_decoding(data: Seq<u8>)
    requires
        data.len() >= 46,
    ensures
        NewOrderInstructionV3::decoding(data) matches Some(order) ==> order.encoding()
            == data.subrange(0, 46),
{
    if let Some(order) = NewOrderInstructionV3::decoding(data) {
        lemma_pow256_widths();
        lemma_le_bytes_of_field(data, 0, 4);
        lemma_le_bytes_of_field(data, 4, 8);
        lemma_le_bytes_of_field(data, 12, 8);
        lemma_le_bytes_of_field(data, 20, 8);
        lemma_le_bytes_of_field(data, 28, 4);
        lemma_le_bytes_of_field(data, 32, 4);
        lemma_le_bytes_of_field(data, 36, 8);
        lemma_le_bytes_of_field(data, 44, 2);
        assert(order.side.number() == field(data, 0, 4));
        assert(order.self_trade_behavior.number() == field(data, 28, 4));
        assert(order.order_type.number() == field(data, 32, 4));
        assert(order.encoding() =~= data.subrange(0, 46));
    }
}

/// Canonical form: an input that holds an instruction begins with the
/// encoding of that instruction. Two inputs hold the same instruction only
/// if they agree up to the end of its fields.
pub proof fn lemma_encoding_of_decoding(input: Seq<u8>)
    ensures
        MangoInstruction::decoding(input) matches Some(x) ==> x.encoding().len() <= input.len()
            && x.encoding() == input.subrange(0, x.encoding().len() as int),
{
    if let Some(x) = MangoInstruction::decoding(input) {
        let data = input.skip(4);
        lemma_pow256_widths();
        lemma_payload_len(x);
        lemma_le_bytes_of_field(input, 0, 4);
        assert(x.tag() == field(input, 0, 4));
        let width = MangoInstruction::payload_width(x.tag());
        assert(x.payload() == data.subrange(0, width as int)) by {
            match x {
                MangoInstruction::InitMangoGroup { .. } => {
                    lemma_le_bytes_of_field(data, 0, 8);
                    lemma_le_bytes_of_field(data, 8, 16);
                    lemma_le_bytes_of_field(data, 24, 16);
                    assert(x.payload() =~= data.subrange(0, 40));
                },
                MangoInstruction::InitMarginAccount | MangoInstruction::SettleFunds => {
                    assert(x.payload() =~= data.subrange(0, 0));
                },
                MangoInstruction::Deposit { .. }
                | MangoInstruction::Withdraw { .. }
                | MangoInstruction::DepositSrm { .. }
                | MangoInstruction::WithdrawSrm { .. }
                | MangoInstruction::CancelOrderByClientId { .. } => {
                    lemma_le_bytes_of_field(data, 0, 8);
                },
                MangoInstruction::Borrow { .. } | MangoInstruction::SettleBorrow { .. } => {
                    lemma_le_bytes_of_field(data, 0, 8);
                    lemma_le_bytes_of_field(data, 8, 8);
                    assert(x.payload() =~= data.subrange(0, 16));
                },
                MangoInstruction::Liquidate { deposit_quantities } => {
                    lemma_quantities_array_view(quantities_at(data));
                    lemma_quantities_encoding_of_decoding(data, deposit_quantities@);
                },
                MangoInstruction::PlaceOrder { .. } => {
                    lemma_order_encoding_of_decoding(data);
                },
                MangoInstruction::CancelOrder { order } => {
                    lemma_le_bytes_of_field(data, 0, 4);
                    lemma_le_bytes_of_field(data, 4, 16);
                    assert(order.side.number() == field(data, 0, 4));
                    assert(x.payload() =~= data.subrange(0, 20));
                },
            }
        }
        assert(x.encoding() =~= input.subrange(0, x.encoding().len() as int));
    }
}

} // verus!
