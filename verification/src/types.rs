//! The records, identities, events and errors of the marketplace.

use vstd::prelude::*;

verus! {

/// The identity of an account or contract: its address in text (strkey) form.
/// Two identities denote the same party exactly when their texts agree.
#[derive(Debug)]
pub struct AccountId {
    pub key: String,
}

impl View for AccountId {
    type V = Seq<char>;

    open spec fn view(&self) -> Seq<char> {
        self.key@
    }
}

impl Clone for AccountId {
    fn clone(&self) -> (res: Self)
        ensures
            res == *self,
    {
        AccountId { key: self.key.clone() }
    }
}

impl PartialEq for AccountId {
    fn eq(&self, other: &Self) -> (res: bool) {
        self.key == other.key
    }
}

impl vstd::std_specs::cmp::PartialEqSpecImpl for AccountId {
    open spec fn obeys_eq_spec() -> bool {
        true
    }

    open spec fn eq_spec(&self, other: &AccountId) -> bool {
        self@ == other@
    }
}

impl Eq for AccountId {
}

impl AccountId {
    /// Makes the identity whose address text is `key`.
    pub fn new(key: String) -> (res: AccountId)
        ensures
            res.key == key,
    {
        AccountId { key }
    }
}

/// Where a credit stands in the verification process.
#[derive(Clone, Copy, Debug, PartialEq, Eq, Structural)]
pub enum VerificationStatus {
    Pending,
    Verified,
    Rejected,
}

/// The keys under which the contract keeps its state in ledger storage.
#[derive(Clone, Copy, Debug, PartialEq, Eq, Structural)]
pub enum DataKey {
    Admin,
    Token,
    CreditCount,
    PurchaseCount,
    Credit(u64),
    Purchase(u64),
}

/// A carbon credit: a number of tons of one project, held by one owner.
#[derive(Debug, PartialEq)]
pub struct Credit {
    pub id: u64,
    pub project_name: String,
    /// Tons still held in this credit.
    pub carbon_amount: i128,
    pub creator_address: AccountId,
    pub owner_address: AccountId,
    pub verification_status: VerificationStatus,
    pub is_listed: bool,
    /// Price per ton while listed.
    pub price_per_ton: i128,
    pub timestamp: u64,
}

impl Clone for Credit {
    fn clone(&self) -> (res: Self)
        ensures
            res == *self,
    {
        Credit {
            id: self.id,
            project_name: self.project_name.clone(),
            carbon_amount: self.carbon_amount,
            creator_address: self.creator_address.clone(),
            owner_address: self.owner_address.clone(),
            verification_status: self.verification_status,
            is_listed: self.is_listed,
            price_per_ton: self.price_per_ton,
            timestamp: self.timestamp,
        }
    }
}

/// Where a purchase stands: open while `Pending` or `Disputed`.
#[derive(Clone, Copy, Debug, PartialEq, Eq, Structural)]
pub enum PurchaseStatus {
    Pending,
    Confirmed,
    Cancelled,
    Disputed,
    Resolved,
}

/// A purchase of tons out of a listed credit, paid into escrow.
#[derive(Debug, PartialEq)]
pub struct Purchase {
    pub id: u64,
    pub credit_id: u64,
    pub buyer: AccountId,
    pub seller: AccountId,
    pub amount_purchased: i128,
    /// What the buyer paid into escrow.
    pub locked_funds: i128,
    pub status: PurchaseStatus,
    pub timestamp: u64,
    /// Before this moment the purchase cannot be cancelled.
    pub deadline: u64,
}

impl Clone for Purchase {
    fn clone(&self) -> (res: Self)
        ensures
            res == *self,
    {
        Purchase {
            id: self.id,
            credit_id: self.credit_id,
            buyer: self.buyer.clone(),
            seller: self.seller.clone(),
            amount_purchased: self.amount_purchased,
            locked_funds: self.locked_funds,
            status: self.status,
            timestamp: self.timestamp,
            deadline: self.deadline,
        }
    }
}

/// One side of a token transfer: the contract's escrow or an account.
#[derive(Debug, PartialEq)]
pub enum Holder {
    Escrow,
    Account(AccountId),
}

/// A transfer of `amount` units of the payment token `token`.
#[derive(Debug, PartialEq)]
pub struct Transfer {
    pub token: AccountId,
    pub from: Holder,
    pub to: Holder,
    pub amount: i128,
}

/// An event that the contract publishes.
#[derive(Debug, PartialEq)]
pub enum Event {
    Created { credit_id: u64, creator: AccountId },
    Verified { credit_id: u64, status: VerificationStatus },
    Listed { credit_id: u64, price_per_ton: i128 },
    Unlisted { credit_id: u64, owner: AccountId },
    Purchased { credit_id: u64, buyer: AccountId },
    Released { purchase_id: u64, credit_id: u64 },
    Cancelled { purchase_id: u64, caller: AccountId },
    Resolved { purchase_id: u64, refund_buyer: bool },
}

/// What an accepted call gives back: its result, the token transfer it
/// orders (if any), and the event it publishes (if any).
#[derive(Debug, PartialEq)]
pub struct Outcome<T> {
    pub value: T,
    pub transfer: Option<Transfer>,
    pub event: Option<Event>,
}

/// Why the contract rejects a call.
#[derive(Clone, Copy, Debug, PartialEq, Eq, Structural)]
pub enum MarketError {
    AlreadyInitialized,
    NotInitialized,
    OnlyAdminCanUpgrade,
    OnlyAdminCanVerify,
    OnlyAdminCanResolve,
    NonPositiveCarbonAmount,
    CounterOverflow,
    CreditNotFound,
    NonPositivePrice,
    OnlyOwnerCanList,
    CreditNotVerified,
    NoCarbonToList,
    OnlyOwnerCanUnlist,
    NonPositivePurchase,
    CreditNotListed,
    OwnerCannotBuy,
    InsufficientCarbon,
    PriceOverflow,
    DeadlineOverflow,
    PurchaseNotFound,
    OnlyBuyerCanConfirm,
    NotPending,
    OnlyPartiesCanCancel,
    DeadlineNotExpired,
    NotDisputable,
    NotInvolved,
    CannotDispute,
}

impl MarketError {
    /// The text of the message with which the contract aborts a call rejected for this reason.
    pub open spec fn text(self) -> Seq<char> {
        match self {
            MarketError::AlreadyInitialized => "Already initialized"@,
            MarketError::NotInitialized => "Contract not initialized"@,
            MarketError::OnlyAdminCanUpgrade => "Only admin can upgrade"@,
            MarketError::OnlyAdminCanVerify => "Only admin can verify"@,
            MarketError::OnlyAdminCanResolve => "Only admin can resolve"@,
            MarketError::NonPositiveCarbonAmount => "Carbon amount must be strictly positive"@,
            MarketError::CounterOverflow => "attempt to add with overflow"@,
            MarketError::CreditNotFound => "Credit not found"@,
            MarketError::NonPositivePrice => "Price must be strictly positive"@,
            MarketError::OnlyOwnerCanList => "Only owner can list"@,
            MarketError::CreditNotVerified => "Credit not verified"@,
            MarketError::NoCarbonToList => "No carbon available to list"@,
            MarketError::OnlyOwnerCanUnlist => "Only owner can unlist"@,
            MarketError::NonPositivePurchase => "Must buy at least 1 ton"@,
            MarketError::CreditNotListed => "Credit is not listed"@,
            MarketError::OwnerCannotBuy => "Owner cannot buy own credit"@,
            MarketError::InsufficientCarbon => "Insufficient carbon amount available"@,
            MarketError::PriceOverflow => "Price overflow"@,
            MarketError::DeadlineOverflow => "attempt to add with overflow"@,
            MarketError::PurchaseNotFound => "Purchase not found"@,
            MarketError::OnlyBuyerCanConfirm => "Only buyer can confirm"@,
            MarketError::NotPending => "Not a pending purchase"@,
            MarketError::OnlyPartiesCanCancel => "Only buyer or seller can cancel"@,
            MarketError::DeadlineNotExpired => "Deadline has not expired yet"@,
            MarketError::NotDisputable => "Not disputable"@,
            MarketError::NotInvolved => "Not involved"@,
            MarketError::CannotDispute => "Cannot dispute"@,
        }
    }

    /// The message with which the contract aborts the call.
    pub fn message(&self) -> (r: &'static str)
        ensures
            r@ == self.text(),
    {
        match self {
            MarketError::AlreadyInitialized => "Already initialized",
            MarketError::NotInitialized => "Contract not initialized",
            MarketError::OnlyAdminCanUpgrade => "Only admin can upgrade",
            MarketError::OnlyAdminCanVerify => "Only admin can verify",
            MarketError::OnlyAdminCanResolve => "Only admin can resolve",
            MarketError::NonPositiveCarbonAmount => "Carbon amount must be strictly positive",
            MarketError::CounterOverflow => "attempt to add with overflow",
            MarketError::CreditNotFound => "Credit not found",
            MarketError::NonPositivePrice => "Price must be strictly positive",
            MarketError::OnlyOwnerCanList => "Only owner can list",
            MarketError::CreditNotVerified => "Credit not verified",
            MarketError::NoCarbonToList => "No carbon available to list",
            MarketError::OnlyOwnerCanUnlist => "Only owner can unlist",
            MarketError::NonPositivePurchase => "Must buy at least 1 ton",
            MarketError::CreditNotListed => "Credit is not listed",
            MarketError::OwnerCannotBuy => "Owner cannot buy own credit",
            MarketError::InsufficientCarbon => "Insufficient carbon amount available",
            MarketError::PriceOverflow => "Price overflow",
            MarketError::DeadlineOverflow => "attempt to add with overflow",
            MarketError::PurchaseNotFound => "Purchase not found",
            MarketError::OnlyBuyerCanConfirm => "Only buyer can confirm",
            MarketError::NotPending => "Not a pending purchase",
            MarketError::OnlyPartiesCanCancel => "Only buyer or seller can cancel",
            MarketError::DeadlineNotExpired => "Deadline has not expired yet",
            MarketError::NotDisputable => "Not disputable",
            MarketError::NotInvolved => "Not involved",
            MarketError::CannotDispute => "Cannot dispute",
        }
    }
}

} // verus!
