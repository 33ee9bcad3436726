//! The mathematical model of the marketplace: its state, what makes a state
//! well formed, its books (carbon and escrow), and what each call does to a
//! state, as spec functions.

use vstd::prelude::*;
use crate::sums::sum_of;
use crate::types::{
    AccountId, Credit, Event, Holder, MarketError, Outcome, Purchase, PurchaseStatus, Transfer,
    VerificationStatus,
};

verus! {

/// How long (in seconds) a purchase stays locked before it can be cancelled.
pub const LOCK_PERIOD: u64 = 604800;

/// The state of the contract.
pub struct MarketState {
    pub admin: Option<AccountId>,
    pub token: Option<AccountId>,
    /// `credits[i]` is the credit with id `i + 1`.
    pub credits: Seq<Credit>,
    /// `purchases[j]` is the purchase with id `j + 1`.
    pub purchases: Seq<Purchase>,
}

/// A purchase is open while its tons and funds are held in escrow.
pub open spec fn is_open(status: PurchaseStatus) -> bool {
    status == PurchaseStatus::Pending || status == PurchaseStatus::Disputed
}

/// Tons that a credit holds.
pub open spec fn carbon_held() -> spec_fn(Credit) -> int {
    |c: Credit| c.carbon_amount as int
}

/// Tons that an open purchase holds in escrow.
pub open spec fn carbon_reserved() -> spec_fn(Purchase) -> int {
    |p: Purchase|
        if is_open(p.status) {
            p.amount_purchased as int
        } else {
            0
        }
}

/// Tons that an open purchase holds in escrow out of the credit `credit_id`.
pub open spec fn carbon_reserved_from(credit_id: u64) -> spec_fn(Purchase) -> int {
    |p: Purchase|
        if p.credit_id == credit_id && is_open(p.status) {
            p.amount_purchased as int
        } else {
            0
        }
}

/// Funds that an open purchase holds in escrow.
pub open spec fn funds_escrowed() -> spec_fn(Purchase) -> int {
    |p: Purchase|
        if is_open(p.status) {
            p.locked_funds as int
        } else {
            0
        }
}

/// What a transfer adds to the escrow (negative when it pays out of it).
pub open spec fn escrow_inflow(transfer: Option<Transfer>) -> int {
    match transfer {
        Some(t) => (if t.to is Escrow {
            t.amount as int
        } else {
            0
        }) - (if t.from is Escrow {
            t.amount as int
        } else {
            0
        }),
        None => 0,
    }
}

/// A purchase status may stay, leave `Pending` for any other status, or go
/// from `Disputed` to `Resolved`.
pub open spec fn status_may_follow(before: PurchaseStatus, after: PurchaseStatus) -> bool {
    ||| before == after
    ||| before == PurchaseStatus::Pending
    ||| (before == PurchaseStatus::Disputed && after == PurchaseStatus::Resolved)
}

/// The credit at index `i` is well formed within the purchases `ps`.
pub open spec fn credit_wf(c: Credit, i: int, ps: Seq<Purchase>) -> bool {
    &&& c.id == i + 1
    &&& c.carbon_amount >= 0
    &&& c.is_listed ==> c.price_per_ton > 0
    &&& c.carbon_amount + sum_of(ps, carbon_reserved_from(c.id)) <= i128::MAX
}

/// The purchase at index `j` is well formed among `n` credits.
pub open spec fn purchase_wf(p: Purchase, j: int, n: nat) -> bool {
    &&& p.id == j + 1
    &&& 1 <= p.credit_id <= n
    &&& p.amount_purchased > 0
    &&& p.locked_funds > 0
}

impl MarketState {
    /// The state of a contract that has just been deployed.
    pub open spec fn deployed() -> MarketState {
        MarketState {
            admin: None,
            token: None,
            credits: Seq::empty(),
            purchases: Seq::empty(),
        }
    }

    pub open spec fn initialized(self) -> bool {
        self.admin is Some
    }

    /// `who` is the admin of an initialized contract.
    pub open spec fn is_admin(self, who: AccountId) -> bool {
        self.admin->0@ == who@
    }

    pub open spec fn has_credit(self, id: u64) -> bool {
        1 <= id <= self.credits.len()
    }

    pub open spec fn credit(self, id: u64) -> Credit {
        self.credits[id - 1]
    }

    pub open spec fn has_purchase(self, id: u64) -> bool {
        1 <= id <= self.purchases.len()
    }

    pub open spec fn purchase(self, id: u64) -> Purchase {
        self.purchases[id - 1]
    }

    /// The id that the next new credit gets.
    pub open spec fn next_credit_id(self) -> u64 {
        (self.credits.len() + 1) as u64
    }

    /// The id that the next new purchase gets.
    pub open spec fn next_purchase_id(self) -> u64 {
        (self.purchases.len() + 1) as u64
    }

    /// The credit `id` replaced by `c`.
    pub open spec fn with_credit(self, id: u64, c: Credit) -> MarketState {
        MarketState { credits: self.credits.update(id - 1, c), ..self }
    }

    /// The purchase `id` replaced by `p`.
    pub open spec fn with_purchase(self, id: u64, p: Purchase) -> MarketState {
        MarketState { purchases: self.purchases.update(id - 1, p), ..self }
    }

    /// All tons in the market: held by credits or reserved by open purchases.
    pub open spec fn total_carbon(self) -> int {
        sum_of(self.credits, carbon_held()) + sum_of(self.purchases, carbon_reserved())
    }

    /// The funds that the contract holds in escrow for open purchases.
    pub open spec fn escrow_balance(self) -> int {
        sum_of(self.purchases, funds_escrowed())
    }

    pub open spec fn wf(self) -> bool {
        &&& (self.admin is Some) == (self.token is Some)
        &&& self.admin is None ==> self.credits.len() == 0 && self.purchases.len() == 0
        &&& self.credits.len() <= u64::MAX
        &&& self.purchases.len() <= u64::MAX
        &&& forall|i: int|
            0 <= i < self.credits.len() ==> credit_wf(#[trigger] self.credits[i], i, self.purchases)
        &&& forall|j: int|
            0 <= j < self.purchases.len() ==> purchase_wf(
                #[trigger] self.purchases[j],
                j,
                self.credits.len(),
            )
    }

    /// `later` can come from `self` by calls of the contract: the admin and
    /// token never change once set, no credit or purchase disappears, a
    /// credit keeps its id, project and creator, and a purchase keeps all
    /// but its status, which moves only as `status_may_follow` allows.
    pub open spec fn evolves_to(self, later: MarketState) -> bool {
        &&& self.admin is Some ==> later.admin == self.admin
        &&& self.token is Some ==> later.token == self.token
        &&& self.credits.len() <= later.credits.len()
        &&& self.purchases.len() <= later.purchases.len()
        &&& forall|i: int|
            #![trigger later.credits[i]]
            0 <= i < self.credits.len() ==> {
                &&& later.credits[i].id == self.credits[i].id
                &&& later.credits[i].project_name == self.credits[i].project_name
                &&& later.credits[i].creator_address == self.credits[i].creator_address
            }
        &&& forall|j: int|
            #![trigger later.purchases[j]]
            0 <= j < self.purchases.len() ==> {
                &&& later.purchases[j] == Purchase {
                    status: later.purchases[j].status,
                    ..self.purchases[j]
                }
                &&& status_may_follow(self.purchases[j].status, later.purchases[j].status)
            }
    }
}

/// What an accepted call leads to: the next state and the call's outcome.
pub type Step<T> = Result<(MarketState, Outcome<T>), MarketError>;

pub open spec fn quiet<T>(value: T) -> Outcome<T> {
    Outcome { value, transfer: None, event: None }
}

pub open spec fn init_step(s: MarketState, admin: AccountId, token: AccountId) -> Step<()> {
    if s.initialized() {
        Err(MarketError::AlreadyInitialized)
    } else {
        Ok((MarketState { admin: Some(admin), token: Some(token), ..s }, quiet(())))
    }
}

/// The contract's part in an upgrade: only the admin may replace its code.
pub open spec fn upgrade_step(s: MarketState, admin: AccountId) -> Step<()> {
    if !s.initialized() {
        Err(MarketError::NotInitialized)
    } else if !s.is_admin(admin) {
        Err(MarketError::OnlyAdminCanUpgrade)
    } else {
        Ok((s, quiet(())))
    }
}

/// The credit that `create_credit` makes.
pub open spec fn new_credit(
    id: u64,
    creator: AccountId,
    project_name: String,
    carbon_amount: i128,
    now: u64,
) -> Credit {
    Credit {
        id,
        project_name,
        carbon_amount,
        creator_address: creator,
        owner_address: creator,
        verification_status: VerificationStatus::Pending,
        is_listed: false,
        price_per_ton: 0,
        timestamp: now,
    }
}

pub open spec fn create_credit_step(
    s: MarketState,
    creator: AccountId,
    project_name: String,
    carbon_amount: i128,
    now: u64,
) -> Step<u64> {
    if carbon_amount <= 0 {
        Err(MarketError::NonPositiveCarbonAmount)
    } else if !s.initialized() {
        Err(MarketError::NotInitialized)
    } else if s.credits.len() >= u64::MAX {
        Err(MarketError::CounterOverflow)
    } else {
        let id = s.next_credit_id();
        Ok(
            (
                MarketState {
                    credits: s.credits.push(new_credit(id, creator, project_name, carbon_amount, now)),
                    ..s
                },
                Outcome {
                    value: id,
                    transfer: None,
                    event: Some(Event::Created { credit_id: id, creator }),
                },
            ),
        )
    }
}

pub open spec fn verify_credit_step(
    s: MarketState,
    admin: AccountId,
    credit_id: u64,
    status: VerificationStatus,
) -> Step<()> {
    if !s.initialized() {
        Err(MarketError::NotInitialized)
    } else if !s.is_admin(admin) {
        Err(MarketError::OnlyAdminCanVerify)
    } else if !s.has_credit(credit_id) {
        Err(MarketError::CreditNotFound)
    } else {
        Ok(
            (
                s.with_credit(
                    credit_id,
                    Credit { verification_status: status, ..s.credit(credit_id) },
                ),
                Outcome {
                    value: (),
                    transfer: None,
                    event: Some(Event::Verified { credit_id, status }),
                },
            ),
        )
    }
}

pub open spec fn list_credit_step(
    s: MarketState,
    owner: AccountId,
    credit_id: u64,
    price_per_ton: i128,
) -> Step<()> {
    let c = s.credit(credit_id);
    if price_per_ton <= 0 {
        Err(MarketError::NonPositivePrice)
    } else if !s.has_credit(credit_id) {
        Err(MarketError::CreditNotFound)
    } else if c.owner_address@ != owner@ {
        Err(MarketError::OnlyOwnerCanList)
    } else if c.verification_status != VerificationStatus::Verified {
        Err(MarketError::CreditNotVerified)
    } else if c.carbon_amount <= 0 {
        Err(MarketError::NoCarbonToList)
    } else {
        Ok(
            (
                s.with_credit(credit_id, Credit { is_listed: true, price_per_ton, ..c }),
                Outcome {
                    value: (),
                    transfer: None,
                    event: Some(Event::Listed { credit_id, price_per_ton }),
                },
            ),
        )
    }
}

pub open spec fn unlist_credit_step(s: MarketState, owner: AccountId, credit_id: u64) -> Step<()> {
    let c = s.credit(credit_id);
    if !s.has_credit(credit_id) {
        Err(MarketError::CreditNotFound)
    } else if c.owner_address@ != owner@ {
        Err(MarketError::OnlyOwnerCanUnlist)
    } else {
        Ok(
            (
                s.with_credit(credit_id, Credit { is_listed: false, ..c }),
                Outcome {
                    value: (),
                    transfer: None,
                    event: Some(Event::Unlisted { credit_id, owner }),
                },
            ),
        )
    }
}

pub open spec fn buy_credit_step(
    s: MarketState,
    buyer: AccountId,
    credit_id: u64,
    amount: i128,
    now: u64,
) -> Step<u64> {
    let c = s.credit(credit_id);
    let price = amount * c.price_per_ton;
    if amount <= 0 {
        Err(MarketError::NonPositivePurchase)
    } else if !s.has_credit(credit_id) {
        Err(MarketError::CreditNotFound)
    } else if !c.is_listed {
        Err(MarketError::CreditNotListed)
    } else if c.owner_address@ == buyer@ {
        Err(MarketError::OwnerCannotBuy)
    } else if c.carbon_amount < amount {
        Err(MarketError::InsufficientCarbon)
    } else if !(i128::MIN <= price <= i128::MAX) {
        Err(MarketError::PriceOverflow)
    } else if s.purchases.len() >= u64::MAX {
        Err(MarketError::CounterOverflow)
    } else if now + LOCK_PERIOD > u64::MAX {
        Err(MarketError::DeadlineOverflow)
    } else {
        let id = s.next_purchase_id();
        let left = (c.carbon_amount - amount) as i128;
        let purchase = Purchase {
            id,
            credit_id,
            buyer,
            seller: c.owner_address,
            amount_purchased: amount,
            locked_funds: price as i128,
            status: PurchaseStatus::Pending,
            timestamp: now,
            deadline: (now + LOCK_PERIOD) as u64,
        };
        Ok(
            (
                MarketState {
                    purchases: s.purchases.push(purchase),
                    ..s.with_credit(
                        credit_id,
                        Credit { carbon_amount: left, is_listed: left != 0, ..c },
                    )
                },
                Outcome {
                    value: id,
                    transfer: Some(
                        Transfer {
                            token: s.token->0,
                            from: Holder::Account(buyer),
                            to: Holder::Escrow,
                            amount: price as i128,
                        },
                    ),
                    event: Some(Event::Purchased { credit_id, buyer }),
                },
            ),
        )
    }
}

/// The credit that passes `p`'s tons, taken out of `parent`, to `owner`.
pub open spec fn fractional_credit(
    id: u64,
    parent: Credit,
    p: Purchase,
    owner: AccountId,
    now: u64,
) -> Credit {
    Credit {
        id,
        project_name: parent.project_name,
        carbon_amount: p.amount_purchased,
        creator_address: parent.creator_address,
        owner_address: owner,
        verification_status: VerificationStatus::Verified,
        is_listed: false,
        price_per_ton: 0,
        timestamp: now,
    }
}

/// A payout of `p`'s escrowed funds to `to`.
pub open spec fn payout(s: MarketState, p: Purchase, to: AccountId) -> Option<Transfer> {
    Some(
        Transfer {
            token: s.token->0,
            from: Holder::Escrow,
            to: Holder::Account(to),
            amount: p.locked_funds,
        },
    )
}

pub open spec fn confirm_delivery_step(
    s: MarketState,
    buyer: AccountId,
    purchase_id: u64,
    now: u64,
) -> Step<u64> {
    let p = s.purchase(purchase_id);
    if !s.has_purchase(purchase_id) {
        Err(MarketError::PurchaseNotFound)
    } else if p.buyer@ != buyer@ {
        Err(MarketError::OnlyBuyerCanConfirm)
    } else if p.status != PurchaseStatus::Pending {
        Err(MarketError::NotPending)
    } else if s.credits.len() >= u64::MAX {
        Err(MarketError::CounterOverflow)
    } else {
        let id = s.next_credit_id();
        let minted = fractional_credit(id, s.credit(p.credit_id), p, buyer, now);
        Ok(
            (
                MarketState {
                    credits: s.credits.push(minted),
                    ..s.with_purchase(
                        purchase_id,
                        Purchase { status: PurchaseStatus::Confirmed, ..p },
                    )
                },
                Outcome {
                    value: id,
                    transfer: payout(s, p, p.seller),
                    event: Some(Event::Released { purchase_id, credit_id: id }),
                },
            ),
        )
    }
}

/// `p`'s tons go back to the credit they came from and `p` ends with `status`.
pub open spec fn refunded(s: MarketState, purchase_id: u64, status: PurchaseStatus) -> MarketState {
    let p = s.purchase(purchase_id);
    let c = s.credit(p.credit_id);
    s.with_purchase(purchase_id, Purchase { status, ..p }).with_credit(
        p.credit_id,
        Credit { carbon_amount: (c.carbon_amount + p.amount_purchased) as i128, ..c },
    )
}

pub open spec fn cancel_purchase_step(
    s: MarketState,
    caller: AccountId,
    purchase_id: u64,
    now: u64,
) -> Step<()> {
    let p = s.purchase(purchase_id);
    if !s.has_purchase(purchase_id) {
        Err(MarketError::PurchaseNotFound)
    } else if p.buyer@ != caller@ && p.seller@ != caller@ {
        Err(MarketError::OnlyPartiesCanCancel)
    } else if p.status != PurchaseStatus::Pending {
        Err(MarketError::NotPending)
    } else if now <= p.deadline {
        Err(MarketError::DeadlineNotExpired)
    } else {
        Ok(
            (
                refunded(s, purchase_id, PurchaseStatus::Cancelled),
                Outcome {
                    value: (),
                    transfer: payout(s, p, p.buyer),
                    event: Some(Event::Cancelled { purchase_id, caller }),
                },
            ),
        )
    }
}

pub open spec fn resolve_dispute_step(
    s: MarketState,
    admin: AccountId,
    purchase_id: u64,
    refund_buyer: bool,
    now: u64,
) -> Step<()> {
    let p = s.purchase(purchase_id);
    let event = Some(Event::Resolved { purchase_id, refund_buyer });
    if !s.initialized() {
        Err(MarketError::NotInitialized)
    } else if !s.is_admin(admin) {
        Err(MarketError::OnlyAdminCanResolve)
    } else if !s.has_purchase(purchase_id) {
        Err(MarketError::PurchaseNotFound)
    } else if !is_open(p.status) {
        Err(MarketError::NotDisputable)
    } else if refund_buyer {
        Ok(
            (
                refunded(s, purchase_id, PurchaseStatus::Resolved),
                Outcome { value: (), transfer: payout(s, p, p.buyer), event },
            ),
        )
    } else if s.credits.len() >= u64::MAX {
        Err(MarketError::CounterOverflow)
    } else {
        let minted = fractional_credit(s.next_credit_id(), s.credit(p.credit_id), p, p.buyer, now);
        Ok(
            (
                MarketState {
                    credits: s.credits.push(minted),
                    ..s.with_purchase(
                        purchase_id,
                        Purchase { status: PurchaseStatus::Resolved, ..p },
                    )
                },
                Outcome { value: (), transfer: payout(s, p, p.seller), event },
            ),
        )
    }
}

pub open spec fn mark_disputed_step(s: MarketState, caller: AccountId, purchase_id: u64) -> Step<
    (),
> {
    let p = s.purchase(purchase_id);
    if !s.has_purchase(purchase_id) {
        Err(MarketError::PurchaseNotFound)
    } else if p.buyer@ != caller@ && p.seller@ != caller@ {
        Err(MarketError::NotInvolved)
    } else if p.status != PurchaseStatus::Pending {
        Err(MarketError::CannotDispute)
    } else {
        Ok((s.with_purchase(purchase_id, Purchase { status: PurchaseStatus::Disputed, ..p }), quiet(())))
    }
}

/// The call whose outcome is `step` was made from `before`: `after` and `r`
/// are what it leads to, and a rejected call leaves the state as it was.
pub open spec fn applied<T>(
    before: MarketState,
    after: MarketState,
    r: Result<Outcome<T>, MarketError>,
    step: Step<T>,
) -> bool {
    match step {
        Ok((t, o)) => after == t && r == Ok::<Outcome<T>, MarketError>(o),
        Err(e) => after == before && r == Err::<Outcome<T>, MarketError>(e),
    }
}

/// What `get_credit` reads.
pub open spec fn credit_lookup(s: MarketState, credit_id: u64) -> Result<Credit, MarketError> {
    if s.has_credit(credit_id) {
        Ok(s.credit(credit_id))
    } else {
        Err(MarketError::CreditNotFound)
    }
}

/// What `get_purchase` reads.
pub open spec fn purchase_lookup(s: MarketState, purchase_id: u64) -> Result<
    Purchase,
    MarketError,
> {
    if s.has_purchase(purchase_id) {
        Ok(s.purchase(purchase_id))
    } else {
        Err(MarketError::PurchaseNotFound)
    }
}

/// A call of the contract, with its arguments.
pub enum Call {
    Init { admin: AccountId, token: AccountId },
    Upgrade { admin: AccountId },
    CreateCredit { creator: AccountId, project_name: String, carbon_amount: i128, now: u64 },
    VerifyCredit { admin: AccountId, credit_id: u64, status: VerificationStatus },
    ListCredit { owner: AccountId, credit_id: u64, price_per_ton: i128 },
    UnlistCredit { owner: AccountId, credit_id: u64 },
    BuyCredit { buyer: AccountId, credit_id: u64, amount: i128, now: u64 },
    ConfirmDelivery { buyer: AccountId, purchase_id: u64, now: u64 },
    CancelPurchase { caller: AccountId, purchase_id: u64, now: u64 },
    ResolveDispute { admin: AccountId, purchase_id: u64, refund_buyer: bool, now: u64 },
    MarkDisputed { caller: AccountId, purchase_id: u64 },
}

/// The next state and the transfer of an accepted call; `None` if rejected.
pub open spec fn effect<T>(step: Step<T>) -> Option<(MarketState, Option<Transfer>)> {
    match step {
        Ok((t, o)) => Some((t, o.transfer)),
        Err(_) => None,
    }
}

/// What the call `c` does from `s`.
pub open spec fn call_effect(s: MarketState, c: Call) -> Option<(MarketState, Option<Transfer>)> {
    match c {
        Call::Init { admin, token } => effect(init_step(s, admin, token)),
        Call::Upgrade { admin } => effect(upgrade_step(s, admin)),
        Call::CreateCredit { creator, project_name, carbon_amount, now } => effect(
            create_credit_step(s, creator, project_name, carbon_amount, now),
        ),
        Call::VerifyCredit { admin, credit_id, status } => effect(
            verify_credit_step(s, admin, credit_id, status),
        ),
        Call::ListCredit { owner, credit_id, price_per_ton } => effect(
            list_credit_step(s, owner, credit_id, price_per_ton),
        ),
        Call::UnlistCredit { owner, credit_id } => effect(unlist_credit_step(s, owner, credit_id)),
        Call::BuyCredit { buyer, credit_id, amount, now } => effect(
            buy_credit_step(s, buyer, credit_id, amount, now),
        ),
        Call::ConfirmDelivery { buyer, purchase_id, now } => effect(
            confirm_delivery_step(s, buyer, purchase_id, now),
        ),
        Call::CancelPurchase { caller, purchase_id, now } => effect(
            cancel_purchase_step(s, caller, purchase_id, now),
        ),
        Call::ResolveDispute { admin, purchase_id, refund_buyer, now } => effect(
            resolve_dispute_step(s, admin, purchase_id, refund_buyer, now),
        ),
        Call::MarkDisputed { caller, purchase_id } => effect(
            mark_disputed_step(s, caller, purchase_id),
        ),
    }
}

/// The tons that the call `c` issues if it is accepted.
pub open spec fn tons_issued(c: Call) -> int {
    match c {
        Call::CreateCredit { carbon_amount, .. } => carbon_amount as int,
        _ => 0,
    }
}

/// A history of calls from `s`: the state it ends in, the token balance that
/// its transfers leave in escrow, and the tons that its accepted calls issued.
/// A rejected call is reverted and leaves no trace.
pub open spec fn replay(s: MarketState, calls: Seq<Call>) -> (MarketState, int, int)
    decreases calls.len(),
{
    if calls.len() == 0 {
        (s, 0, 0)
    } else {
        let (before, held, issued) = replay(s, calls.drop_last());
        match call_effect(before, calls.last()) {
            Some((after, transfer)) => (
                after,
                held + escrow_inflow(transfer),
                issued + tons_issued(calls.last()),
            ),
            None => (before, held, issued),
        }
    }
}

} // verus!
