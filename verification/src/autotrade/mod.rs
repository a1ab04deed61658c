//! Buyer-side automatic copy-trading: the typed trade parameters, the command
//! recipe of an execution card, and the decisions of the inbound validation
//! chain. Every degrade carries a stable machine-readable reason.

pub mod card;
pub mod chains;
pub mod flow;
pub mod grants;
pub mod pipeline;
pub mod schema;

use vstd::prelude::*;

verus! {

/// Why a signal was not executed automatically (the notify-only path).
#[derive(Debug, Clone, Copy, PartialEq, Eq)]
pub enum DegradeReason {
    /// The signal failed structural validation.
    StructureReject,
    /// The signal is older than its time to live.
    FreshnessExpired,
    /// No active wallet address for the signal's chain.
    NoActiveWallet,
    /// The signal type is not enabled for automatic execution.
    TypeDegrade,
    /// The spend is above the authorised cap.
    OverCap,
    /// The holding behind a percentage sell could not be resolved.
    PctHoldingFail,
    /// The delivery was already handled (idempotency marker present).
    ReplaySkip,
    /// The idempotency marker could not be written.
    LatchWriteFail,
    /// The job id has characters outside `[A-Za-z0-9_-]` or is empty.
    InvalidJobId,
    /// The grant check refused, with its specific deny code.
    GrantDenied(&'static str),
}

/// The stable name of a fixed degrade reason (`GrantDenied` carries its own).
pub open spec fn spec_reason_name(r: DegradeReason) -> Seq<char> {
    match r {
        DegradeReason::StructureReject => "structure_reject"@,
        DegradeReason::FreshnessExpired => "freshness_expired"@,
        DegradeReason::NoActiveWallet => "no_active_wallet"@,
        DegradeReason::TypeDegrade => "type_degrade"@,
        DegradeReason::OverCap => "over_cap"@,
        DegradeReason::PctHoldingFail => "pct_holding_fail"@,
        DegradeReason::ReplaySkip => "replay_skip"@,
        DegradeReason::LatchWriteFail => "latch_write_fail"@,
        DegradeReason::InvalidJobId => "invalid_job_id"@,
        DegradeReason::GrantDenied(code) => code@,
    }
}

impl DegradeReason {
    /// The stable machine-readable reason; for `GrantDenied`, the deny code.
    pub fn as_str(&self) -> (r: &'static str)
        ensures
            r@ == spec_reason_name(*self),
    {
        match self {
            DegradeReason::StructureReject => "structure_reject",
            DegradeReason::FreshnessExpired => "freshness_expired",
            DegradeReason::NoActiveWallet => "no_active_wallet",
            DegradeReason::TypeDegrade => "type_degrade",
            DegradeReason::OverCap => "over_cap",
            DegradeReason::PctHoldingFail => "pct_holding_fail",
            DegradeReason::ReplaySkip => "replay_skip",
            DegradeReason::LatchWriteFail => "latch_write_fail",
            DegradeReason::InvalidJobId => "invalid_job_id",
            DegradeReason::GrantDenied(code) => code,
        }
    }
}

/// Each fixed degrade reason has a name of its own: two fixed reasons with the
/// same name are the same reason.
pub proof fn lemma_reason_names_distinct(a: DegradeReason, b: DegradeReason)
    requires
        !(a is GrantDenied),
        !(b is GrantDenied),
        spec_reason_name(a) == spec_reason_name(b),
    ensures
        a == b,
{
    reveal_strlit("structure_reject");
    reveal_strlit("freshness_expired");
    reveal_strlit("no_active_wallet");
    reveal_strlit("type_degrade");
    reveal_strlit("over_cap");
    reveal_strlit("pct_holding_fail");
    reveal_strlit("replay_skip");
    reveal_strlit("latch_write_fail");
    reveal_strlit("invalid_job_id");
    let (na, nb) = (spec_reason_name(a), spec_reason_name(b));
    assert(na.len() == nb.len() && na[0] == nb[0]);
    match a {
        DegradeReason::StructureReject => assert(b is StructureReject),
        DegradeReason::FreshnessExpired => assert(b is FreshnessExpired),
        DegradeReason::NoActiveWallet => assert(b is NoActiveWallet),
        DegradeReason::TypeDegrade => assert(b is TypeDegrade),
        DegradeReason::OverCap => assert(b is OverCap),
        DegradeReason::PctHoldingFail => assert(b is PctHoldingFail),
        DegradeReason::ReplaySkip => assert(b is ReplaySkip),
        DegradeReason::LatchWriteFail => assert(b is LatchWriteFail),
        DegradeReason::InvalidJobId => assert(b is InvalidJobId),
        DegradeReason::GrantDenied(_) => {},
    }
}

/// A failure of the automatic path: a degrade (notify the user, keep the
/// deliverable) or a structural reject with a message.
#[derive(Debug, Clone, PartialEq, Eq)]
pub enum AutoTradeError {
    Degrade(DegradeReason),
    Reject(String),
}

/// The view of an automatic-path failure: a degrade, or a reject message.
pub enum AutoTradeErrorV {
    Degrade(DegradeReason),
    Reject(Seq<char>),
}

impl View for AutoTradeError {
    type V = AutoTradeErrorV;

    open spec fn view(&self) -> AutoTradeErrorV {
        match self {
            AutoTradeError::Degrade(d) => AutoTradeErrorV::Degrade(*d),
            AutoTradeError::Reject(m) => AutoTradeErrorV::Reject(m@),
        }
    }
}

} // verus!
