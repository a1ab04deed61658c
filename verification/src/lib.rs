//! Trade signals for an agent-commerce CLI: the exact parser of bilingual
//! trade-signal texts and their V2 envelope, the buyer-side automatic
//! copy-trade decisions and command recipes, and the subscription and device
//! routing helpers, with their contracts proved.

pub mod asset_class;
pub mod autotrade;
pub mod decimal;
pub mod device_routing;
pub mod signal_command;
pub mod subscription;
pub mod text;
pub mod trade_signal;
