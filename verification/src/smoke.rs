//! The smoke tests of a running network: what each check concludes from the
//! answers it gets, and the tally of the suite.

use vstd::prelude::*;
use vstd::string::StringExecFns;
use crate::text::{decimal, decimal_text, str_eq};

verus! {

/// Transparent funds, in zatoshis, from which a shield is worth trying: the
/// fee and some amount on top.
pub const MIN_SHIELD_ZATOSHIS: u64 = 20_000;

/// Shielded funds, in zatoshis, that count as a wallet already shielded.
pub const SHIELDED_ENOUGH_ZATOSHIS: u64 = 100_000;

/// Shielded funds, in zatoshis, that the send check needs.
pub const MIN_SEND_BALANCE_ZATOSHIS: u64 = 10_000_000;

/// The amount, in zatoshis, that the send check sends.
pub const SEND_CHECK_ZATOSHIS: u64 = 5_000_000;

/// Seconds a shield of the shield check is left to confirm.
pub const SHIELD_CHECK_CONFIRM_SECS: u64 = 30;

/// Why a check failed.
#[derive(Clone, Copy, Debug, PartialEq, Eq, Structural)]
pub enum CheckFailure {
    RpcNotResponding,
    HealthRequestFailed,
    NotHealthy,
    AddressRequestFailed,
    MissingUnifiedAddress,
    MissingTransparentAddress,
    SyncRequestFailed,
    SyncIncomplete,
    BalanceRequestFailed,
    ShieldRequestFailed,
    RecipientRequestFailed,
    SendRequestFailed,
    SendIncomplete,
}

impl CheckFailure {
    /// The failure in words.
    pub open spec fn message_view(self) -> Seq<char> {
        match self {
            CheckFailure::RpcNotResponding => "Zebra RPC not responding"@,
            CheckFailure::HealthRequestFailed => "Faucet health check failed"@,
            CheckFailure::NotHealthy => "Faucet not reporting healthy status"@,
            CheckFailure::AddressRequestFailed => "Could not get faucet address"@,
            CheckFailure::MissingUnifiedAddress => "Missing unified address in response"@,
            CheckFailure::MissingTransparentAddress => "Missing transparent address in response"@,
            CheckFailure::SyncRequestFailed => "Wallet sync failed"@,
            CheckFailure::SyncIncomplete => "Wallet sync did not complete successfully"@,
            CheckFailure::BalanceRequestFailed => "Failed to get balance from stats endpoint"@,
            CheckFailure::ShieldRequestFailed => "Shield API call failed"@,
            CheckFailure::RecipientRequestFailed => "Failed to get recipient address"@,
            CheckFailure::SendRequestFailed => "Shielded send failed"@,
            CheckFailure::SendIncomplete => "Shielded send did not complete as expected"@,
        }
    }

    /// The failure in words.
    pub fn message(&self) -> (text: &'static str)
        ensures
            text@ == self.message_view(),
    {
        match self {
            CheckFailure::RpcNotResponding => "Zebra RPC not responding",
            CheckFailure::HealthRequestFailed => "Faucet health check failed",
            CheckFailure::NotHealthy => "Faucet not reporting healthy status",
            CheckFailure::AddressRequestFailed => "Could not get faucet address",
            CheckFailure::MissingUnifiedAddress => "Missing unified address in response",
            CheckFailure::MissingTransparentAddress => "Missing transparent address in response",
            CheckFailure::SyncRequestFailed => "Wallet sync failed",
            CheckFailure::SyncIncomplete => "Wallet sync did not complete successfully",
            CheckFailure::BalanceRequestFailed => "Failed to get balance from stats endpoint",
            CheckFailure::ShieldRequestFailed => "Shield API call failed",
            CheckFailure::RecipientRequestFailed => "Failed to get recipient address",
            CheckFailure::SendRequestFailed => "Shielded send failed",
            CheckFailure::SendIncomplete => "Shielded send did not complete as expected",
        }
    }
}

/// The status field of a reply, as plain values.
pub open spec fn status_view(status: Option<&str>) -> Option<Seq<char>> {
    match status {
        Some(text) => Some(text@),
        None => None,
    }
}

fn status_is(status: Option<&str>, expected: &str) -> (same: bool)
    ensures
        same == (status_view(status) == Some(expected@)),
{
    match status {
        Some(text) => str_eq(text, expected),
        None => false,
    }
}

/// The node check passes when the node answered the request.
pub fn test_zebra_rpc(answered: bool) -> (verdict: Result<(), CheckFailure>)
    ensures
        verdict == if answered {
            Ok::<(), CheckFailure>(())
        } else {
            Err::<(), CheckFailure>(CheckFailure::RpcNotResponding)
        },
{
    if answered {
        Ok(())
    } else {
        Err(CheckFailure::RpcNotResponding)
    }
}

/// The health check passes when the faucet answered and reports the status
/// `healthy`.
pub fn test_faucet_health(answered: bool, status: Option<&str>) -> (verdict: Result<(), CheckFailure>)
    ensures
        verdict == if !answered {
            Err::<(), CheckFailure>(CheckFailure::HealthRequestFailed)
        } else if status_view(status) != Some("healthy"@) {
            Err::<(), CheckFailure>(CheckFailure::NotHealthy)
        } else {
            Ok::<(), CheckFailure>(())
        },
{
    if !answered {
        Err(CheckFailure::HealthRequestFailed)
    } else if !status_is(status, "healthy") {
        Err(CheckFailure::NotHealthy)
    } else {
        Ok(())
    }
}

/// The address check passes when the faucet answered with both of its
/// addresses; a missing unified address is reported first.
pub fn test_faucet_address(answered: bool, has_unified: bool, has_transparent: bool) -> (verdict:
    Result<(), CheckFailure>)
    ensures
        verdict == if !answered {
            Err::<(), CheckFailure>(CheckFailure::AddressRequestFailed)
        } else if !has_unified {
            Err::<(), CheckFailure>(CheckFailure::MissingUnifiedAddress)
        } else if !has_transparent {
            Err::<(), CheckFailure>(CheckFailure::MissingTransparentAddress)
        } else {
            Ok::<(), CheckFailure>(())
        },
{
    if !answered {
        Err(CheckFailure::AddressRequestFailed)
    } else if !has_unified {
        Err(CheckFailure::MissingUnifiedAddress)
    } else if !has_transparent {
        Err(CheckFailure::MissingTransparentAddress)
    } else {
        Ok(())
    }
}

/// The sync check passes when the faucet answered and reports the status
/// `synced`.
pub fn test_wallet_sync(answered: bool, status: Option<&str>) -> (verdict: Result<(), CheckFailure>)
    ensures
        verdict == if !answered {
            Err::<(), CheckFailure>(CheckFailure::SyncRequestFailed)
        } else if status_view(status) != Some("synced"@) {
            Err::<(), CheckFailure>(CheckFailure::SyncIncomplete)
        } else {
            Ok::<(), CheckFailure>(())
        },
{
    if !answered {
        Err(CheckFailure::SyncRequestFailed)
    } else if !status_is(status, "synced") {
        Err(CheckFailure::SyncIncomplete)
    } else {
        Ok(())
    }
}

/// What the shield check does with the balance it found.
#[derive(Clone, Copy, Debug, PartialEq, Eq, Structural)]
pub enum ShieldCheck {
    /// Enough transparent funds: ask the faucet to shield them.
    Shield,
    /// Too little to shield, but the wallet already holds shielded funds:
    /// pass.
    AlreadyShielded,
    /// Some transparent funds, too little to cover a shield: skip.
    TooSmall,
    /// Nothing at all: skip.
    NoBalance,
}

/// What the shield check does with a wallet that holds these amounts.
pub open spec fn shield_check(transparent: u64, orchard: u64) -> ShieldCheck {
    if transparent >= MIN_SHIELD_ZATOSHIS {
        ShieldCheck::Shield
    } else if orchard >= SHIELDED_ENOUGH_ZATOSHIS {
        ShieldCheck::AlreadyShielded
    } else if transparent > 0 {
        ShieldCheck::TooSmall
    } else {
        ShieldCheck::NoBalance
    }
}

/// Plans the shield check: see `shield_check`.
pub fn test_wallet_shield(transparent: u64, orchard: u64) -> (plan: ShieldCheck)
    ensures
        plan == shield_check(transparent, orchard),
{
    if transparent >= MIN_SHIELD_ZATOSHIS {
        ShieldCheck::Shield
    } else if orchard >= SHIELDED_ENOUGH_ZATOSHIS {
        ShieldCheck::AlreadyShielded
    } else if transparent > 0 {
        ShieldCheck::TooSmall
    } else {
        ShieldCheck::NoBalance
    }
}

/// What the faucet's answer to the shield request of the check means.
#[derive(Clone, Copy, Debug, PartialEq, Eq, Structural)]
pub enum ShieldAnswer {
    /// A shield was broadcast: let it confirm, sync, and compare balances.
    Shielded,
    /// There was nothing to shield.
    NoFunds,
    /// Any other status; the check passes all the same.
    Other,
}

/// Reads the faucet's answer to the shield request of the check. Only a
/// request that was not answered fails the check.
pub fn shield_answer(answered: bool, status: Option<&str>) -> (answer: Result<
    ShieldAnswer,
    CheckFailure,
>)
    ensures
        answer == if !answered {
            Err::<ShieldAnswer, CheckFailure>(CheckFailure::ShieldRequestFailed)
        } else if status_view(status) == Some("shielded"@) {
            Ok::<ShieldAnswer, CheckFailure>(ShieldAnswer::Shielded)
        } else if status_view(status) == Some("no_funds"@) {
            Ok::<ShieldAnswer, CheckFailure>(ShieldAnswer::NoFunds)
        } else {
            Ok::<ShieldAnswer, CheckFailure>(ShieldAnswer::Other)
        },
{
    if !answered {
        Err(CheckFailure::ShieldRequestFailed)
    } else if status_is(status, "shielded") {
        Ok(ShieldAnswer::Shielded)
    } else if status_is(status, "no_funds") {
        Ok(ShieldAnswer::NoFunds)
    } else {
        Ok(ShieldAnswer::Other)
    }
}

/// Whether the balances show that a shield has moved funds: more in the
/// shielded pool than before, or less in the transparent one.
pub fn funds_moved(
    transparent_before: u64,
    orchard_before: u64,
    transparent_after: u64,
    orchard_after: u64,
) -> (moved: bool)
    ensures
        moved == (orchard_after > orchard_before || transparent_after < transparent_before),
{
    orchard_after > orchard_before || transparent_after < transparent_before
}

/// What the send check does with the shielded balance it found.
#[derive(Clone, Copy, Debug, PartialEq, Eq, Structural)]
pub enum SendCheck {
    /// Too little in the shielded pool: skip.
    Skip,
    /// Send this amount to the faucet's own unified address.
    Send { amount: u64 },
}

/// Plans the send check: it needs a tenth of a coin in the shielded pool and
/// sends half of that.
pub fn test_shielded_send(orchard: u64) -> (plan: SendCheck)
    ensures
        plan == if orchard < MIN_SEND_BALANCE_ZATOSHIS {
            SendCheck::Skip
        } else {
            SendCheck::Send { amount: SEND_CHECK_ZATOSHIS }
        },
{
    if orchard < MIN_SEND_BALANCE_ZATOSHIS {
        SendCheck::Skip
    } else {
        SendCheck::Send { amount: SEND_CHECK_ZATOSHIS }
    }
}

/// Reads the faucet's answer to the send request of the check: it passes
/// only with the status `sent`.
pub fn send_answer(answered: bool, status: Option<&str>) -> (verdict: Result<(), CheckFailure>)
    ensures
        verdict == if !answered {
            Err::<(), CheckFailure>(CheckFailure::SendRequestFailed)
        } else if status_view(status) != Some("sent"@) {
            Err::<(), CheckFailure>(CheckFailure::SendIncomplete)
        } else {
            Ok::<(), CheckFailure>(())
        },
{
    if !answered {
        Err(CheckFailure::SendRequestFailed)
    } else if !status_is(status, "sent") {
        Err(CheckFailure::SendIncomplete)
    } else {
        Ok(())
    }
}

/// What a `SuiteTally` holds, as plain values.
pub struct TallyView {
    pub passed: nat,
    pub failed: nat,
}

/// Some checks of the suite failed.
#[derive(Clone, Copy, Debug, PartialEq, Eq, Structural)]
pub struct SuiteFailed {
    pub failed: u32,
}

impl SuiteFailed {
    /// The failure in words.
    pub fn message(&self) -> (text: String)
        ensures
            text@ == decimal_text(self.failed as nat) + " test(s) failed"@,
    {
        decimal(self.failed as u64).concat(" test(s) failed")
    }
}

/// The count of checks passed and failed. The counts stop at the largest
/// `u32`.
pub struct SuiteTally {
    passed: u32,
    failed: u32,
}

impl View for SuiteTally {
    type V = TallyView;

    closed spec fn view(&self) -> TallyView {
        TallyView { passed: self.passed as nat, failed: self.failed as nat }
    }
}

impl SuiteTally {
    /// The tally of a suite that has not run a check yet.
    pub fn new() -> (tally: Self)
        ensures
            tally@ == (TallyView { passed: 0, failed: 0 }),
    {
        SuiteTally { passed: 0, failed: 0 }
    }

    pub fn passed(&self) -> (passed: u32)
        ensures
            passed == self@.passed,
    {
        self.passed
    }

    pub fn failed(&self) -> (failed: u32)
        ensures
            failed == self@.failed,
    {
        self.failed
    }

    /// Counts one check.
    pub fn record(&mut self, passed: bool)
        ensures
            final(self)@.passed == if passed && old(self)@.passed < u32::MAX {
                old(self)@.passed + 1
            } else {
                old(self)@.passed
            },
            final(self)@.failed == if !passed && old(self)@.failed < u32::MAX {
                old(self)@.failed + 1
            } else {
                old(self)@.failed
            },
    {
        if passed {
            if self.passed < u32::MAX {
                self.passed = self.passed + 1;
            }
        } else {
            if self.failed < u32::MAX {
                self.failed = self.failed + 1;
            }
        }
    }

    /// The suite passes exactly when no check failed.
    pub fn verdict(&self) -> (verdict: Result<(), SuiteFailed>)
        ensures
            verdict == if self@.failed > 0 {
                Err::<(), SuiteFailed>(SuiteFailed { failed: self@.failed as u32 })
            } else {
                Ok::<(), SuiteFailed>(())
            },
    {
        if self.failed > 0 {
            Err(SuiteFailed { failed: self.failed })
        } else {
            Ok(())
        }
    }
}

} // verus!
