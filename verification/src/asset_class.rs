//! The single asset-class type shared crate-wide.

use vstd::prelude::*;

verus! {

/// The five signal asset classes.
#[derive(Debug, Clone, Copy, PartialEq, Eq, Structural)]
pub enum AssetClass {
    Spot,
    Perp,
    Prediction,
    Option,
    Defi,
}

/// The stable lowercase name of an asset class.
pub open spec fn spec_asset_class_str(c: AssetClass) -> Seq<char> {
    match c {
        AssetClass::Spot => "spot"@,
        AssetClass::Perp => "perp"@,
        AssetClass::Prediction => "prediction"@,
        AssetClass::Option => "option"@,
        AssetClass::Defi => "defi"@,
    }
}

impl AssetClass {
    /// The stable lowercase name (`spot`, `perp`, `prediction`, `option`, `defi`).
    pub fn as_str(&self) -> (r: &'static str)
        ensures
            r@ == spec_asset_class_str(*self),
    {
        match self {
            AssetClass::Spot => "spot",
            AssetClass::Perp => "perp",
            AssetClass::Prediction => "prediction",
            AssetClass::Option => "option",
            AssetClass::Defi => "defi",
        }
    }
}

} // verus!
