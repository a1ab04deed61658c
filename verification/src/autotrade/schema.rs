//! The typed parameters of an automatic copy-trade signal, one variant per
//! signal type, and the delivery-id rule.

use vstd::prelude::*;
use super::grants::{is_safe_id, is_safe_id_str};

verus! {

/// The signal types that can be executed automatically.
#[derive(Debug, Clone, Copy, PartialEq, Eq)]
pub enum SignalType {
    DexTrade,
    DefiRebalance,
    Polymarket,
}

pub open spec fn spec_signal_type_str(t: SignalType) -> Seq<char> {
    match t {
        SignalType::DexTrade => "dex_trade"@,
        SignalType::DefiRebalance => "defi_rebalance"@,
        SignalType::Polymarket => "polymarket"@,
    }
}

impl SignalType {
    /// The stable snake_case name.
    pub fn as_str(&self) -> (r: &'static str)
        ensures
            r@ == spec_signal_type_str(*self),
    {
        match self {
            SignalType::DexTrade => "dex_trade",
            SignalType::DefiRebalance => "defi_rebalance",
            SignalType::Polymarket => "polymarket",
        }
    }
}

#[derive(Debug, Clone, Copy, PartialEq, Eq)]
pub enum Side {
    Buy,
    Sell,
}

/// What an amount counts: the traded token, the quote currency, or a percent
/// of the holding.
#[derive(Debug, Clone, Copy, PartialEq, Eq)]
pub enum AmountUnit {
    Base,
    Quote,
    Pct,
}

#[derive(Debug, Clone, Copy, PartialEq, Eq)]
pub enum DefiAction {
    Deposit,
    Withdraw,
    Claim,
}

/// A swap on a DEX. Amounts are decimal strings.
#[derive(Debug, Clone, PartialEq, Eq)]
pub struct DexTradeParams {
    pub chain_index: String,
    pub token_address: String,
    pub side: Side,
    pub amount: String,
    pub amount_unit: AmountUnit,
    /// Slippage in basis points.
    pub slippage_bps: Option<u32>,
}

/// A DeFi deposit, withdrawal (a percent of the position) or reward claim.
#[derive(Debug, Clone, PartialEq, Eq)]
pub struct DefiRebalanceParams {
    pub protocol_product_id: String,
    pub action: DefiAction,
    pub amount: Option<String>,
    pub amount_unit: Option<AmountUnit>,
    pub token_address: Option<String>,
    pub chain_index: Option<String>,
    pub platform_id: Option<String>,
}

/// A prediction-market order.
#[derive(Debug, Clone, PartialEq, Eq)]
pub struct PolymarketParams {
    pub condition_id: String,
    pub outcome: String,
    pub side: Side,
    pub amount: String,
    pub amount_unit: AmountUnit,
    /// Limit price in cents.
    pub max_price_cents: Option<u32>,
}

/// The validated parameters of a signal, by signal type.
#[derive(Debug, Clone, PartialEq, Eq)]
pub enum TypedParams {
    Dex(DexTradeParams),
    Defi(DefiRebalanceParams),
    Polymarket(PolymarketParams),
}

/// The text of an optional string, empty when absent.
pub open spec fn or_empty(o: Option<String>) -> Seq<char> {
    match o {
        Some(s) => s@,
        None => Seq::empty(),
    }
}

/// A delivery id is a safe identifier: 1 to 128 characters of
/// `[A-Za-z0-9_-]`.
pub fn check_delivery_id(delivery_id: &str) -> (r: Result<(), String>)
    ensures
        r is Ok <==> is_safe_id(delivery_id@),
        r matches Err(m) ==> m@ == "invalid deliveryId"@,
{
    if is_safe_id_str(delivery_id) {
        Ok(())
    } else {
        Err(String::from_str("invalid deliveryId"))
    }
}

} // verus!
