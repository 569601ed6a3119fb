//! The fee-aware shield and send flows.
//!
//! Each flow reads the balance, decides, and only then hands the movement of
//! funds to the wallet. The decisions are made here; the caller, holding the
//! wallet exclusively, reads the balance before and carries out a plan after.

use vstd::prelude::*;
use crate::balance::{checked_difference, is_valid_amount, BalanceView, WalletBalance, MAX_MONEY};

verus! {

/// The fee of a shield transaction, in zatoshis.
pub const SHIELD_FEE: u64 = 10_000;

/// Why a flow refused to move funds.
#[derive(Clone, Copy, Debug, PartialEq, Eq, Structural)]
pub enum ProtocolError {
    /// The transparent funds do not exceed the fee of shielding them.
    InsufficientFunds { transparent: u64, fee: u64 },
    /// The amount to send is zero or more money than there can be.
    InvalidAmount { amount: u64 },
    /// The shielded pool holds less than the amount to send.
    InsufficientBalance { needed: u64, available: u64 },
}

/// What to do about a request to shield.
#[derive(Clone, Copy, Debug, PartialEq, Eq, Structural)]
pub enum ShieldPlan {
    /// There is nothing to shield. This is a regular answer, not a failure.
    NoFunds,
    /// Move the transparent funds to the shielded pool; `shield_amount` of
    /// them arrive there, `fee` is paid.
    Move { transparent: u64, shield_amount: u64, fee: u64 },
}

/// The decision on a request to shield, by the transparent funds at hand.
pub open spec fn shield_decision(transparent: u64) -> Result<ShieldPlan, ProtocolError> {
    if transparent == 0 {
        Ok(ShieldPlan::NoFunds)
    } else if transparent <= SHIELD_FEE {
        Err(ProtocolError::InsufficientFunds { transparent, fee: SHIELD_FEE })
    } else {
        Ok(
            ShieldPlan::Move {
                transparent,
                shield_amount: (transparent - SHIELD_FEE) as u64,
                fee: SHIELD_FEE,
            },
        )
    }
}

/// Decides on a request to shield. An empty transparent pool gives
/// `NoFunds`, never an error. Funds that do not exceed the fee are refused,
/// and nothing is to be moved. Otherwise everything is moved and the fee
/// comes off what arrives.
pub fn shield_funds(balance: &WalletBalance) -> (plan: Result<ShieldPlan, ProtocolError>)
    ensures
        plan == shield_decision(balance@.transparent),
{
    let transparent = balance.transparent();
    if transparent == 0 {
        return Ok(ShieldPlan::NoFunds);
    }
    match checked_difference(transparent, SHIELD_FEE) {
        Some(shield_amount) if shield_amount > 0 => Ok(
            ShieldPlan::Move { transparent, shield_amount, fee: SHIELD_FEE },
        ),
        _ => Err(ProtocolError::InsufficientFunds { transparent, fee: SHIELD_FEE }),
    }
}

/// A request to send shielded funds.
#[derive(Clone, Debug)]
pub struct SendRequest {
    /// The address of the recipient.
    pub address: String,
    /// The amount to send, in zatoshis.
    pub amount: u64,
    pub memo: Option<String>,
}

/// What a `SendRequest` holds, as plain values.
pub struct SendRequestView {
    pub address: Seq<char>,
    pub amount: u64,
    pub memo: Option<Seq<char>>,
}

impl View for SendRequest {
    type V = SendRequestView;

    open spec fn view(&self) -> SendRequestView {
        SendRequestView {
            address: self.address@,
            amount: self.amount,
            memo: match self.memo {
                Some(memo) => Some(memo@),
                None => None,
            },
        }
    }
}

impl SendRequestView {
    /// A request is valid against a pool when it asks for a positive amount
    /// that the pool can pay together with the fee.
    pub open spec fn valid_against(self, pool_balance: u64, fee: u64) -> bool {
        0 < self.amount && self.amount + fee <= pool_balance
    }
}

impl SendRequest {
    /// Whether the request is valid against a pool that holds
    /// `pool_balance`, for a transaction that costs `fee`.
    pub fn is_valid(&self, pool_balance: u64, fee: u64) -> (valid: bool)
        ensures
            valid == self@.valid_against(pool_balance, fee),
    {
        self.amount > 0 && fee <= pool_balance && self.amount <= pool_balance - fee
    }

    /// The memo of the request; the empty text where it has none.
    pub fn memo_or_default(&self) -> (memo: String)
        ensures
            memo@ == match self@.memo {
                Some(text) => text,
                None => Seq::<char>::empty(),
            },
    {
        match &self.memo {
            Some(text) => text.clone(),
            None => String::new(),
        }
    }
}

/// What to do about a request to send.
#[derive(Clone, Copy, Debug, PartialEq, Eq, Structural)]
pub enum SendPlan {
    /// Hand the request to the wallet for broadcast.
    Broadcast { amount: u64 },
}

/// The decision on a request to send `amount`, by the funds in the shielded
/// pool.
pub open spec fn send_decision(amount: u64, orchard: u64) -> Result<SendPlan, ProtocolError> {
    if amount == 0 || amount > MAX_MONEY {
        Err(ProtocolError::InvalidAmount { amount })
    } else if orchard < amount {
        Err(ProtocolError::InsufficientBalance { needed: amount, available: orchard })
    } else {
        Ok(SendPlan::Broadcast { amount })
    }
}

/// Decides on a request to send from the shielded pool. The amount has to be
/// a positive, valid amount of money, and the pool has to hold at least as
/// much; a refusal for want of funds names both values. Where the request is
/// refused, nothing is to be broadcast.
pub fn send_shielded(balance: &WalletBalance, request: &SendRequest) -> (plan: Result<
    SendPlan,
    ProtocolError,
>)
    ensures
        plan == send_decision(request@.amount, balance@.orchard),
{
    let amount = request.amount;
    if amount == 0 || !is_valid_amount(amount) {
        Err(ProtocolError::InvalidAmount { amount })
    } else if balance.orchard() < amount {
        Err(ProtocolError::InsufficientBalance { needed: amount, available: balance.orchard() })
    } else {
        Ok(SendPlan::Broadcast { amount })
    }
}

/// A request that is valid against the shielded pool, with whatever fee, is
/// never refused.
pub proof fn lemma_valid_request_is_broadcast(request: SendRequestView, balance: BalanceView, fee: u64)
    requires
        balance.valid(),
        request.valid_against(balance.orchard, fee),
    ensures
        send_decision(request.amount, balance.orchard) == Ok::<SendPlan, ProtocolError>(
            SendPlan::Broadcast { amount: request.amount },
        ),
{
}

/// Shielding never moves more than there is, and what arrives and the fee
/// add up to what left.
pub proof fn lemma_shield_conserves_funds(transparent: u64)
    ensures
        shield_decision(transparent) matches Ok(ShieldPlan::Move { transparent: moved, shield_amount, fee })
            ==> moved == transparent && shield_amount + fee == transparent && shield_amount > 0,
        shield_decision(transparent) is Err <==> 0 < transparent <= SHIELD_FEE,
{
}

/// How a transaction ended.
#[derive(Clone, Copy, Debug, PartialEq, Eq, Structural)]
pub enum TxStatus {
    /// The wallet broadcast the transaction.
    Broadcast,
    /// There was nothing to move.
    NoFunds,
    /// The funds at hand did not cover the request.
    InsufficientBalance,
    /// The request was invalid, or the wallet failed to broadcast.
    Failed,
}

/// What came back from the wallet when it was asked to move funds.
#[derive(Clone, Debug)]
pub enum Delegated {
    /// The wallet was not asked.
    NotAttempted,
    /// The wallet broadcast a transaction with this id.
    Accepted(String),
    /// The wallet failed, with this message.
    Refused(String),
}

/// What a `Delegated` holds, as plain values.
pub enum DelegatedView {
    NotAttempted,
    Accepted(Seq<char>),
    Refused(Seq<char>),
}

impl View for Delegated {
    type V = DelegatedView;

    open spec fn view(&self) -> DelegatedView {
        match self {
            Delegated::NotAttempted => DelegatedView::NotAttempted,
            Delegated::Accepted(txid) => DelegatedView::Accepted(txid@),
            Delegated::Refused(message) => DelegatedView::Refused(message@),
        }
    }
}

/// The record of one pass through a flow.
#[derive(Clone, Debug)]
pub struct TransactionResult {
    /// The id of the transaction, where one was broadcast.
    pub txid: Option<String>,
    pub status: TxStatus,
    /// The balance as it was read for this result. After a send it is read
    /// right after the broadcast and may not show the new transaction yet.
    pub balance_snapshot: WalletBalance,
    /// The wallet's own words, where it failed to broadcast.
    pub message: Option<String>,
}

/// What a `TransactionResult` holds, as plain values.
pub struct TransactionResultView {
    pub txid: Option<Seq<char>>,
    pub status: TxStatus,
    pub balance_snapshot: BalanceView,
    pub message: Option<Seq<char>>,
}

impl View for TransactionResult {
    type V = TransactionResultView;

    open spec fn view(&self) -> TransactionResultView {
        TransactionResultView {
            txid: match self.txid {
                Some(txid) => Some(txid@),
                None => None,
            },
            status: self.status,
            balance_snapshot: self.balance_snapshot@,
            message: match self.message {
                Some(message) => Some(message@),
                None => None,
            },
        }
    }
}

/// The status of a flow that was refused with `error`.
pub open spec fn refusal_status(error: ProtocolError) -> TxStatus {
    match error {
        ProtocolError::InsufficientFunds { .. } => TxStatus::InsufficientBalance,
        ProtocolError::InsufficientBalance { .. } => TxStatus::InsufficientBalance,
        ProtocolError::InvalidAmount { .. } => TxStatus::Failed,
    }
}

/// The record of a flow that was refused before the wallet was asked.
pub open spec fn refused(error: ProtocolError, snapshot: BalanceView) -> TransactionResultView {
    TransactionResultView {
        txid: None,
        status: refusal_status(error),
        balance_snapshot: snapshot,
        message: None,
    }
}

/// The record of a flow that was allowed to go to the wallet, by what the
/// wallet did: a broadcast with its transaction id, or a failure with the
/// wallet's message. Not to have asked the wallet is a failure too.
pub open spec fn settled(delegated: DelegatedView, snapshot: BalanceView) -> TransactionResultView {
    match delegated {
        DelegatedView::Accepted(txid) => TransactionResultView {
            txid: Some(txid),
            status: TxStatus::Broadcast,
            balance_snapshot: snapshot,
            message: None,
        },
        DelegatedView::Refused(message) => TransactionResultView {
            txid: None,
            status: TxStatus::Failed,
            balance_snapshot: snapshot,
            message: Some(message),
        },
        DelegatedView::NotAttempted => TransactionResultView {
            txid: None,
            status: TxStatus::Failed,
            balance_snapshot: snapshot,
            message: None,
        },
    }
}

/// The record of a shield: by the decision on the balance alone where
/// nothing is to be moved, else by what the wallet did.
pub open spec fn shield_record(balance: BalanceView, delegated: DelegatedView) -> TransactionResultView {
    match shield_decision(balance.transparent) {
        Ok(ShieldPlan::NoFunds) => TransactionResultView {
            txid: None,
            status: TxStatus::NoFunds,
            balance_snapshot: balance,
            message: None,
        },
        Ok(ShieldPlan::Move { .. }) => settled(delegated, balance),
        Err(error) => refused(error, balance),
    }
}

/// The record of a send: by the decision on the balance alone where nothing
/// is to be broadcast, else by what the wallet did. `snapshot` is the balance
/// to record.
pub open spec fn send_record(
    amount: u64,
    balance: BalanceView,
    delegated: DelegatedView,
    snapshot: BalanceView,
) -> TransactionResultView {
    match send_decision(amount, balance.orchard) {
        Ok(_) => settled(delegated, snapshot),
        Err(error) => refused(error, snapshot),
    }
}

fn settle(delegated: Delegated, balance_snapshot: WalletBalance) -> (result: TransactionResult)
    ensures
        result@ == settled(delegated@, balance_snapshot@),
{
    match delegated {
        Delegated::Accepted(txid) => TransactionResult {
            txid: Some(txid),
            status: TxStatus::Broadcast,
            balance_snapshot,
            message: None,
        },
        Delegated::Refused(message) => TransactionResult {
            txid: None,
            status: TxStatus::Failed,
            balance_snapshot,
            message: Some(message),
        },
        Delegated::NotAttempted => TransactionResult {
            txid: None,
            status: TxStatus::Failed,
            balance_snapshot,
            message: None,
        },
    }
}

fn refuse(error: ProtocolError, balance_snapshot: WalletBalance) -> (result: TransactionResult)
    ensures
        result@ == refused(error, balance_snapshot@),
{
    let status = match error {
        ProtocolError::InvalidAmount { .. } => TxStatus::Failed,
        _ => TxStatus::InsufficientBalance,
    };
    TransactionResult { txid: None, status, balance_snapshot, message: None }
}

/// Records a shield. `balance` is the balance the decision was made on and
/// `delegated` what the wallet did; where the decision was not to move
/// anything, `delegated` is not looked at.
pub fn record_shield(balance: WalletBalance, delegated: Delegated) -> (result: TransactionResult)
    ensures
        result@ == shield_record(balance@, delegated@),
{
    match shield_funds(&balance) {
        Ok(ShieldPlan::NoFunds) => TransactionResult {
            txid: None,
            status: TxStatus::NoFunds,
            balance_snapshot: balance,
            message: None,
        },
        Ok(ShieldPlan::Move { .. }) => settle(delegated, balance),
        Err(error) => refuse(error, balance),
    }
}

/// Records a send. `balance` is the balance the decision was made on,
/// `delegated` what the wallet did, and `snapshot` the balance read after the
/// broadcast; where the request was refused, `delegated` is not looked at.
pub fn record_send(
    request: &SendRequest,
    balance: &WalletBalance,
    delegated: Delegated,
    snapshot: WalletBalance,
) -> (result: TransactionResult)
    ensures
        result@ == send_record(request@.amount, balance@, delegated@, snapshot@),
{
    match send_shielded(balance, request) {
        Ok(_) => settle(delegated, snapshot),
        Err(error) => refuse(error, snapshot),
    }
}

/// A transaction id is recorded exactly for the transactions that were
/// broadcast, and the wallet's answer bears on a record only where the
/// decision was to go to the wallet.
pub proof fn lemma_txid_means_broadcast(
    amount: u64,
    balance: BalanceView,
    delegated: DelegatedView,
    snapshot: BalanceView,
)
    ensures
        shield_record(balance, delegated).txid is Some <==> shield_record(
            balance,
            delegated,
        ).status is Broadcast,
        send_record(amount, balance, delegated, snapshot).txid is Some <==> send_record(
            amount,
            balance,
            delegated,
            snapshot,
        ).status is Broadcast,
        shield_record(balance, delegated).status is Broadcast ==> shield_decision(
            balance.transparent,
        ) matches Ok(ShieldPlan::Move { .. }),
        send_record(amount, balance, delegated, snapshot).status is Broadcast ==> send_decision(
            amount,
            balance.orchard,
        ) is Ok,
        !(shield_decision(balance.transparent) matches Ok(ShieldPlan::Move { .. }))
            ==> shield_record(balance, delegated) == shield_record(
            balance,
            DelegatedView::NotAttempted,
        ),
        send_decision(amount, balance.orchard) is Err ==> send_record(
            amount,
            balance,
            delegated,
            snapshot,
        ) == send_record(amount, balance, DelegatedView::NotAttempted, snapshot),
{
}

/// What a shield that was broadcast comes to.
#[derive(Clone, Debug)]
pub struct ShieldReceipt {
    /// What arrives in the shielded pool.
    pub shield_amount: u64,
    pub fee: u64,
    pub txid: String,
}

/// What a send that was broadcast comes to.
#[derive(Clone, Debug)]
pub struct SendReceipt {
    pub txid: String,
    /// The request, as it was made.
    pub request: SendRequest,
    /// The balance read right after the broadcast; it may not show the new
    /// transaction yet.
    pub balance_snapshot: WalletBalance,
}

impl ShieldPlan {
    /// The receipt for this plan once the wallet has broadcast it as `txid`;
    /// `None` for the plan to move nothing.
    pub fn receipt(&self, txid: String) -> (receipt: Option<ShieldReceipt>)
        ensures
            receipt is Some <==> self is Move,
            receipt matches Some(r) ==> r.shield_amount == self->shield_amount && r.fee
                == self->fee && r.txid@ == txid@,
    {
        match self {
            ShieldPlan::NoFunds => None,
            ShieldPlan::Move { shield_amount, fee, .. } => Some(
                ShieldReceipt { shield_amount: *shield_amount, fee: *fee, txid },
            ),
        }
    }
}

impl SendPlan {
    /// The receipt for this plan once the wallet has broadcast it as `txid`,
    /// with the request it was made for and the balance read afterwards.
    pub fn receipt(&self, txid: String, request: SendRequest, balance_snapshot: WalletBalance) -> (receipt:
        SendReceipt)
        ensures
            receipt.txid@ == txid@,
            receipt.request@ == request@,
            receipt.balance_snapshot@ == balance_snapshot@,
    {
        SendReceipt { txid, request, balance_snapshot }
    }
}

} // verus!
