//! The order and cancel descriptors of the order-book program.
//!
//! Their layout belongs to the order-book program and is mirrored here field
//! for field. Which numbers stand for which enumerator is asked of the
//! `serum_dex` crate itself, through the three `*_from_primitive` functions
//! at the end of this file.
use crate::wire::{
    le_bytes, read_u16, read_u32, read_u64, u16_at, u32_at, u64_at, write_u16, write_u32,
    write_u64,
};
use num_enum::TryFromPrimitive;
use vstd::prelude::*;

verus! {

/// Which side of the book an order stands on.
#[derive(Clone, Copy, Debug, PartialEq, Eq)]
pub enum Side {
    Bid,
    Ask,
}

/// What happens when an order would trade against one of the same owner.
#[derive(Clone, Copy, Debug, PartialEq, Eq)]
pub enum SelfTradeBehavior {
    DecrementTake,
    CancelProvide,
    AbortTransaction,
}

/// How long an order lives and whether it may take.
#[derive(Clone, Copy, Debug, PartialEq, Eq)]
pub enum OrderType {
    Limit,
    ImmediateOrCancel,
    PostOnly,
}

impl Side {
    /// The number that stands for this side on the wire.
    pub open spec fn number(self) -> nat {
        match self {
            Side::Bid => 0,
            Side::Ask => 1,
        }
    }

    /// The side that `number` stands for, if any.
    pub open spec fn of_number(number: nat) -> Option<Side> {
        if number == 0 {
            Some(Side::Bid)
        } else if number == 1 {
            Some(Side::Ask)
        } else {
            None
        }
    }

    /// The number that stands for this side on the wire.
    pub fn to_primitive(self) -> (number: u8)
        ensures
            number == self.number(),
    {
        match self {
            Side::Bid => 0,
            Side::Ask => 1,
        }
    }
}

impl SelfTradeBehavior {
    /// The number that stands for this policy on the wire.
    pub open spec fn number(self) -> nat {
        match self {
            SelfTradeBehavior::DecrementTake => 0,
            SelfTradeBehavior::CancelProvide => 1,
            SelfTradeBehavior::AbortTransaction => 2,
        }
    }

    /// The policy that `number` stands for, if any.
    pub open spec fn of_number(number: nat) -> Option<SelfTradeBehavior> {
        if number == 0 {
            Some(SelfTradeBehavior::DecrementTake)
        } else if number == 1 {
            Some(SelfTradeBehavior::CancelProvide)
        } else if number == 2 {
            Some(SelfTradeBehavior::AbortTransaction)
        } else {
            None
        }
    }

    /// The number that stands for this policy on the wire.
    pub fn to_primitive(self) -> (number: u8)
        ensures
            number == self.number(),
    {
        match self {
            SelfTradeBehavior::DecrementTake => 0,
            SelfTradeBehavior::CancelProvide => 1,
            SelfTradeBehavior::AbortTransaction => 2,
        }
    }
}

impl OrderType {
    /// The number that stands for this order type on the wire.
    pub open spec fn number(self) -> nat {
        match self {
            OrderType::Limit => 0,
            OrderType::ImmediateOrCancel => 1,
            OrderType::PostOnly => 2,
        }
    }

    /// The order type that `number` stands for, if any.
    pub open spec fn of_number(number: nat) -> Option<OrderType> {
        if number == 0 {
            Some(OrderType::Limit)
        } else if number == 1 {
            Some(OrderType::ImmediateOrCancel)
        } else if number == 2 {
            Some(OrderType::PostOnly)
        } else {
            None
        }
    }

    /// The number that stands for this order type on the wire.
    pub fn to_primitive(self) -> (number: u8)
        ensures
            number == self.number(),
    {
        match self {
            OrderType::Limit => 0,
            OrderType::ImmediateOrCancel => 1,
            OrderType::PostOnly => 2,
        }
    }
}

/// A new order, as the order-book program takes it.
///
/// The price and the two quantity limits of an order are never zero: see
/// [`NewOrderInstructionV3::well_formed`].
#[derive(Clone, Debug, PartialEq, Eq)]
pub struct NewOrderInstructionV3 {
    pub side: Side,
    pub limit_price: u64,
    pub max_coin_qty: u64,
    pub max_native_pc_qty_including_fees: u64,
    pub self_trade_behavior: SelfTradeBehavior,
    pub order_type: OrderType,
    pub client_order_id: u64,
    pub limit: u16,
}

/// The cancellation of one order, named by its side and its identifier.
#[derive(Clone, Debug, PartialEq, Eq)]
pub struct CancelOrderInstructionV2 {
    pub side: Side,
    pub order_id: u128,
}

impl NewOrderInstructionV3 {
    /// An order is well formed when its price and both quantity limits are
    /// non-zero.
    pub open spec fn well_formed(&self) -> bool {
        &&& self.limit_price != 0
        &&& self.max_coin_qty != 0
        &&& self.max_native_pc_qty_including_fees != 0
    }

    /// The 46 bytes of the order: side (4), price (8), base limit (8), quote
    /// limit (8), self-trade policy (4), order type (4), client id (8),
    /// result limit (2).
    pub open spec fn encoding(&self) -> Seq<u8> {
        le_bytes(self.side.number(), 4) + le_bytes(self.limit_price as nat, 8) + le_bytes(
            self.max_coin_qty as nat,
            8,
        ) + le_bytes(self.max_native_pc_qty_including_fees as nat, 8) + le_bytes(
            self.self_trade_behavior.number(),
            4,
        ) + le_bytes(self.order_type.number(), 4) + le_bytes(self.client_order_id as nat, 8)
            + le_bytes(self.limit as nat, 2)
    }

    /// The order that the first 46 bytes of `data` hold. There is none when
    /// an enumerator is unknown or when the price or a quantity limit is
    /// zero.
    pub open spec fn decoding(data: Seq<u8>) -> Option<NewOrderInstructionV3> {
        let side = Side::of_number(u32_at(data, 0) as nat);
        let limit_price = u64_at(data, 4);
        let max_coin_qty = u64_at(data, 12);
        let max_native_pc_qty_including_fees = u64_at(data, 20);
        let self_trade_behavior = SelfTradeBehavior::of_number(u32_at(data, 28) as nat);
        let order_type = OrderType::of_number(u32_at(data, 32) as nat);
        if side is Some && limit_price != 0 && max_coin_qty != 0
            && max_native_pc_qty_including_fees != 0 && self_trade_behavior is Some
            && order_type is Some {
            Some(
                NewOrderInstructionV3 {
                    side: side->Some_0,
                    limit_price,
                    max_coin_qty,
                    max_native_pc_qty_including_fees,
                    self_trade_behavior: self_trade_behavior->Some_0,
                    order_type: order_type->Some_0,
                    client_order_id: u64_at(data, 36),
                    limit: u16_at(data, 44),
                },
            )
        } else {
            None
        }
    }

    /// Whether the price and both quantity limits are non-zero.
    pub fn is_well_formed(&self) -> (ok: bool)
        ensures
            ok == self.well_formed(),
    {
        self.limit_price != 0 && self.max_coin_qty != 0 && self.max_native_pc_qty_including_fees
            != 0
    }

    /// Appends the 46 bytes of the order to `out`.
    pub fn pack_into(&self, out: &mut Vec<u8>)
        ensures
            final(out)@ == old(out)@ + self.encoding(),
    {
        let ghost start = out@;
        write_u32(out, self.side.to_primitive() as u32);
        write_u64(out, self.limit_price);
        write_u64(out, self.max_coin_qty);
        write_u64(out, self.max_native_pc_qty_including_fees);
        write_u32(out, self.self_trade_behavior.to_primitive() as u32);
        write_u32(out, self.order_type.to_primitive() as u32);
        write_u64(out, self.client_order_id);
        write_u16(out, self.limit);
        proof {
            assert(out@ =~= start + self.encoding());
        }
    }
}

impl CancelOrderInstructionV2 {
    /// The 20 bytes of the cancellation: side (4), order identifier (16).
    pub open spec fn encoding(&self) -> Seq<u8> {
        le_bytes(self.side.number(), 4) + le_bytes(self.order_id as nat, 16)
    }
}

/// Decodes the order that 46 bytes hold.
///
/// Each enumerator stands in 4 bytes but is one of a handful of small
/// numbers: a value that does not fit one byte is rejected before the
/// order-book program's own tables are asked.
pub fn unpack_dex_new_order_v3(data: &[u8; 46]) -> (order: Option<NewOrderInstructionV3>)
    ensures
        order == NewOrderInstructionV3::decoding(data@),
{
    let bytes = data.as_slice();
    let side_number = read_u32(bytes, 0);
    if side_number > 255 {
        return None;
    }
    let side = match side_from_primitive(side_number as u8) {
        Some(side) => side,
        None => {
            return None;
        },
    };
    let limit_price = read_u64(bytes, 4);
    if limit_price == 0 {
        return None;
    }
    let max_coin_qty = read_u64(bytes, 12);
    if max_coin_qty == 0 {
        return None;
    }
    let max_native_pc_qty_including_fees = read_u64(bytes, 20);
    if max_native_pc_qty_including_fees == 0 {
        return None;
    }
    let self_trade_number = read_u32(bytes, 28);
    if self_trade_number > 255 {
        return None;
    }
    let self_trade_behavior = match self_trade_behavior_from_primitive(self_trade_number as u8) {
        Some(behavior) => behavior,
        None => {
            return None;
        },
    };
    let order_type_number = read_u32(bytes, 32);
    if order_type_number > 255 {
        return None;
    }
    let order_type = match order_type_from_primitive(order_type_number as u8) {
        Some(order_type) => order_type,
        None => {
            return None;
        },
    };
    let client_order_id = read_u64(bytes, 36);
    let limit = read_u16(bytes, 44);
    Some(
        NewOrderInstructionV3 {
            side,
            limit_price,
            max_coin_qty,
            max_native_pc_qty_including_fees,
            self_trade_behavior,
            order_type,
            client_order_id,
            limit,
        },
    )
}

/// Asks `serum_dex::matching::Side::try_from_primitive` which side `number`
/// stands for. Trusted, not proved: the order-book program numbers `Bid` 0 and
/// `Ask` 1, and the conversion fails on every other number.
#[verifier::external_body]
pub(crate) fn side_from_primitive(number: u8) -> (side: Option<Side>)
    ensures
        side == Side::of_number(number as nat),
{
    match serum_dex::matching::Side::try_from_primitive(number) {
        Ok(serum_dex::matching::Side::Bid) => Some(Side::Bid),
        Ok(serum_dex::matching::Side::Ask) => Some(Side::Ask),
        Err(_) => None,
    }
}

/// Asks `serum_dex::instruction::SelfTradeBehavior::try_from_primitive` which
/// self-trade policy `number` stands for. Trusted, not proved: the order-book
/// program numbers `DecrementTake` 0, `CancelProvide` 1 and
/// `AbortTransaction` 2, and the conversion fails on every other number.
#[verifier::external_body]
pub(crate) fn self_trade_behavior_from_primitive(number: u8) -> (behavior: Option<
    SelfTradeBehavior,
>)
    ensures
        behavior == SelfTradeBehavior::of_number(number as nat),
{
    match serum_dex::instruction::SelfTradeBehavior::try_from_primitive(number) {
        Ok(serum_dex::instruction::SelfTradeBehavior::DecrementTake) => Some(
            SelfTradeBehavior::DecrementTake,
        ),
        Ok(serum_dex::instruction::SelfTradeBehavior::CancelProvide) => Some(
            SelfTradeBehavior::CancelProvide,
        ),
        Ok(serum_dex::instruction::SelfTradeBehavior::AbortTransaction) => Some(
            SelfTradeBehavior::AbortTransaction,
        ),
        Err(_) => None,
    }
}

/// Asks `serum_dex::matching::OrderType::try_from_primitive` which order type
/// `number` stands for. Trusted, not proved: the order-book program numbers
/// `Limit` 0, `ImmediateOrCancel` 1 and `PostOnly` 2, and the conversion fails
/// on every other number.
#[verifier::external_body]
pub(crate) fn order_type_from_primitive(number: u8) -> (order_type: Option<OrderType>)
    ensures
        order_type == OrderType::of_number(number as nat),
{
    match serum_dex::matching::OrderType::try_from_primitive(number) {
        Ok(serum_dex::matching::OrderType::Limit) => Some(OrderType::Limit),
        Ok(serum_dex::matching::OrderType::ImmediateOrCancel) => Some(
            OrderType::ImmediateOrCancel,
        ),
        Ok(serum_dex::matching::OrderType::PostOnly) => Some(OrderType::PostOnly),
        Err(_) => None,
    }
}

} // verus!
