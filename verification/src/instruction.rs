//! The decoded-instruction feed: what the external decoder hands the
//! classifier for every unit of work.

use vstd::prelude::*;

use crate::address::Address;

verus! {

/// Per-transaction context accompanying every decoded instruction.
pub struct TransactionContext {
    /// The account paying the transaction fee.
    pub fee_payer: Address,
    /// Every static account referenced by the transaction, in order.
    pub account_keys: Vec<Address>,
    /// Opaque transaction identifier, used only for reporting.
    pub signature: String,
    /// Whether the transaction carried inner (cross-program) instructions.
    pub has_inner_instructions: bool,
}

/// Payload of the emitted liquidity-change log events.
#[derive(Clone, Copy, Debug)]
pub struct LiquidityChangeDetails {
    pub lb_pair: Address,
    pub from: Address,
    pub position: Address,
    pub amounts: [u64; 2],
    pub active_bin_id: i32,
}

/// One entry of a liquidity-removal request: how many basis points to
/// withdraw from one price bin.
#[derive(Clone, Copy, Debug)]
pub struct BinLiquidityReduction {
    pub bin_id: i32,
    pub bps_to_remove: u16,
}

/// A decoded instruction of the market-maker program, as the external
/// decoder produces it. Closed union; immutable once constructed.
pub enum InstructionVariant {
    /// Emitted log event: liquidity was added to a pool.
    AddLiquidityEvent(LiquidityChangeDetails),
    /// Emitted log event: liquidity was removed from a pool.
    RemoveLiquidityEvent(LiquidityChangeDetails),
    /// A request to add liquidity, with the two deposit amounts.
    AddLiquidity { amount_x: u64, amount_y: u64 },
    /// A request to remove liquidity from a set of price bins.
    RemoveLiquidity { bin_liquidity_removal: Vec<BinLiquidityReduction> },
    /// A swap with its input amount and minimum acceptable output.
    Swap { amount_in: u64, min_amount_out: u64 },
    /// Any other instruction of the program, carrying its type tag.
    Other { name: String },
}

/// The named account roles the decoder arranges for the instructions
/// that carry a token pair.
#[derive(Clone, Copy, Debug)]
pub struct AccountRoles {
    pub token_x_mint: Address,
    pub token_y_mint: Address,
}

} // verus!
