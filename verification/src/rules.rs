//! The rules of each call, stated over its inputs and results: exactly when
//! the call is accepted, and what an accepted call leaves behind. They are
//! proved of the spec functions that the calls of `CarbonMarketplace` are
//! proved to follow, so a call that broke a rule would fail to verify.

use vstd::prelude::*;
use crate::model::{
    buy_credit_step, cancel_purchase_step, confirm_delivery_step, create_credit_step,
    init_step, list_credit_step, mark_disputed_step, purchase_wf, resolve_dispute_step,
    unlist_credit_step, upgrade_step, verify_credit_step, MarketState, LOCK_PERIOD,
};
use crate::types::{AccountId, Event, Holder, PurchaseStatus, VerificationStatus};

verus! {

/// `t` holds the same credits as `s` except the credit `id`.
pub open spec fn other_credits_kept(s: MarketState, t: MarketState, id: u64) -> bool {
    forall|i: int|
        0 <= i < s.credits.len() && i != id - 1 ==> #[trigger] t.credits[i] == s.credits[i]
}

/// `t` holds the same purchases as `s` except the purchase `id`.
pub open spec fn other_purchases_kept(s: MarketState, t: MarketState, id: u64) -> bool {
    forall|j: int|
        0 <= j < s.purchases.len() && j != id - 1 ==> #[trigger] t.purchases[j] == s.purchases[j]
}

/// `init` is accepted exactly once, and sets the admin and the token.
pub proof fn init_rule(s: MarketState, admin: AccountId, token: AccountId)
    requires
        s.wf(),
    ensures
        init_step(s, admin, token) is Ok <==> s.admin is None,
        init_step(s, admin, token) matches Ok((t, o)) ==> {
            &&& t.admin == Some(admin)
            &&& t.token == Some(token)
            &&& t.credits == s.credits
            &&& t.purchases == s.purchases
            &&& o.transfer is None
            &&& o.event is None
        },
{
}

/// `upgrade` is allowed exactly to the admin, and changes no state.
pub proof fn upgrade_rule(s: MarketState, admin: AccountId)
    requires
        s.wf(),
    ensures
        upgrade_step(s, admin) is Ok <==> (s.admin matches Some(a) && a@ == admin@),
        upgrade_step(s, admin) matches Ok((t, o)) ==> t == s && o.transfer is None && o.event is None,
{
}

/// `create_credit` is accepted exactly for a positive amount on an
/// initialized contract with room for a new id; the new credit gets the
/// next id and belongs to its creator, unverified and unlisted.
pub proof fn create_credit_rule(
    s: MarketState,
    creator: AccountId,
    project_name: String,
    carbon_amount: i128,
    now: u64,
)
    requires
        s.wf(),
    ensures
        create_credit_step(s, creator, project_name, carbon_amount, now) is Ok <==> (carbon_amount
            > 0 && s.admin is Some && s.credits.len() < u64::MAX),
        create_credit_step(s, creator, project_name, carbon_amount, now) matches Ok((t, o)) ==> {
            &&& o.value == s.credits.len() + 1
            &&& t.credits.len() == s.credits.len() + 1
            &&& t.has_credit(o.value)
            &&& t.credit(o.value).id == o.value
            &&& t.credit(o.value).project_name == project_name
            &&& t.credit(o.value).carbon_amount == carbon_amount
            &&& t.credit(o.value).creator_address == creator
            &&& t.credit(o.value).owner_address == creator
            &&& t.credit(o.value).verification_status == VerificationStatus::Pending
            &&& !t.credit(o.value).is_listed
            &&& t.credit(o.value).timestamp == now
            &&& forall|i: int| 0 <= i < s.credits.len() ==> #[trigger] t.credits[i] == s.credits[i]
            &&& t.purchases == s.purchases
            &&& o.transfer is None
            &&& o.event == Some(Event::Created { credit_id: o.value, creator })
        },
{
}

/// `verify_credit` is accepted exactly from the admin for an existing
/// credit, and sets that credit's status and nothing else.
pub proof fn verify_credit_rule(
    s: MarketState,
    admin: AccountId,
    credit_id: u64,
    status: VerificationStatus,
)
    requires
        s.wf(),
    ensures
        verify_credit_step(s, admin, credit_id, status) is Ok <==> (s.admin matches Some(a)
            && a@ == admin@ && s.has_credit(credit_id)),
        verify_credit_step(s, admin, credit_id, status) matches Ok((t, o)) ==> {
            &&& t.credits.len() == s.credits.len()
            &&& t.credit(credit_id).verification_status == status
            &&& t.credit(credit_id).owner_address == s.credit(credit_id).owner_address
            &&& t.credit(credit_id).carbon_amount == s.credit(credit_id).carbon_amount
            &&& t.credit(credit_id).is_listed == s.credit(credit_id).is_listed
            &&& t.credit(credit_id).price_per_ton == s.credit(credit_id).price_per_ton
            &&& other_credits_kept(s, t, credit_id)
            &&& t.purchases == s.purchases
            &&& o.transfer is None
            &&& o.event == Some(Event::Verified { credit_id, status })
        },
{
}

/// `list_credit` is accepted exactly when the owner lists a verified credit
/// that still holds tons, at a positive price; the credit is then listed at
/// that price and nothing else changes.
pub proof fn list_credit_rule(s: MarketState, owner: AccountId, credit_id: u64, price_per_ton: i128)
    requires
        s.wf(),
    ensures
        list_credit_step(s, owner, credit_id, price_per_ton) is Ok <==> {
            &&& price_per_ton > 0
            &&& s.has_credit(credit_id)
            &&& s.credit(credit_id).owner_address@ == owner@
            &&& s.credit(credit_id).verification_status == VerificationStatus::Verified
            &&& s.credit(credit_id).carbon_amount > 0
        },
        list_credit_step(s, owner, credit_id, price_per_ton) matches Ok((t, o)) ==> {
            &&& s.credit(credit_id).verification_status == VerificationStatus::Verified
            &&& t.credits.len() == s.credits.len()
            &&& t.credit(credit_id).is_listed
            &&& t.credit(credit_id).price_per_ton == price_per_ton
            &&& t.credit(credit_id).verification_status == VerificationStatus::Verified
            &&& t.credit(credit_id).owner_address == s.credit(credit_id).owner_address
            &&& t.credit(credit_id).carbon_amount == s.credit(credit_id).carbon_amount
            &&& other_credits_kept(s, t, credit_id)
            &&& t.purchases == s.purchases
            &&& o.transfer is None
            &&& o.event == Some(Event::Listed { credit_id, price_per_ton })
        },
{
}

/// `unlist_credit` is accepted exactly when the owner unlists an existing
/// credit; the credit is then not listed and keeps its tons.
pub proof fn unlist_credit_rule(s: MarketState, owner: AccountId, credit_id: u64)
    requires
        s.wf(),
    ensures
        unlist_credit_step(s, owner, credit_id) is Ok <==> (s.has_credit(credit_id) && s.credit(
            credit_id,
        ).owner_address@ == owner@),
        unlist_credit_step(s, owner, credit_id) matches Ok((t, o)) ==> {
            &&& t.credits.len() == s.credits.len()
            &&& !t.credit(credit_id).is_listed
            &&& t.credit(credit_id).owner_address == s.credit(credit_id).owner_address
            &&& t.credit(credit_id).carbon_amount == s.credit(credit_id).carbon_amount
            &&& t.credit(credit_id).verification_status == s.credit(
                credit_id,
            ).verification_status
            &&& other_credits_kept(s, t, credit_id)
            &&& t.purchases == s.purchases
            &&& o.transfer is None
            &&& o.event == Some(Event::Unlisted { credit_id, owner })
        },
{
}

/// `buy_credit` is accepted exactly when someone other than the owner buys
/// a positive number of tons, no more than the listed credit holds, at a
/// price that fits, with room for a new purchase id and a deadline. The
/// credit loses the bought tons and stays listed exactly while tons remain;
/// the new purchase is pending, locks amount times price, paid by the buyer
/// into escrow, and may be cancelled only after the lock period.
pub proof fn buy_credit_rule(s: MarketState, buyer: AccountId, credit_id: u64, amount: i128, now: u64)
    requires
        s.wf(),
    ensures
        buy_credit_step(s, buyer, credit_id, amount, now) is Ok <==> {
            &&& amount > 0
            &&& s.has_credit(credit_id)
            &&& s.credit(credit_id).is_listed
            &&& s.credit(credit_id).owner_address@ != buyer@
            &&& s.credit(credit_id).carbon_amount >= amount
            &&& amount * s.credit(credit_id).price_per_ton <= i128::MAX
            &&& s.purchases.len() < u64::MAX
            &&& now + LOCK_PERIOD <= u64::MAX
        },
        buy_credit_step(s, buyer, credit_id, amount, now) matches Ok((t, o)) ==> {
            let before = s.credit(credit_id);
            let after = t.credit(credit_id);
            let p = t.purchase(o.value);
            &&& before.is_listed
            &&& t.credits.len() == s.credits.len()
            &&& after.carbon_amount == before.carbon_amount - amount
            &&& after.is_listed == (after.carbon_amount != 0)
            &&& after.price_per_ton == before.price_per_ton
            &&& after.owner_address == before.owner_address
            &&& after.verification_status == before.verification_status
            &&& other_credits_kept(s, t, credit_id)
            &&& o.value == s.purchases.len() + 1
            &&& t.purchases.len() == s.purchases.len() + 1
            &&& forall|j: int|
                0 <= j < s.purchases.len() ==> #[trigger] t.purchases[j] == s.purchases[j]
            &&& t.has_purchase(o.value)
            &&& p.id == o.value
            &&& p.credit_id == credit_id
            &&& p.buyer == buyer
            &&& p.seller == before.owner_address
            &&& p.amount_purchased == amount
            &&& p.locked_funds == amount * before.price_per_ton
            &&& p.status == PurchaseStatus::Pending
            &&& p.timestamp == now
            &&& p.deadline == now + LOCK_PERIOD
            &&& o.transfer matches Some(tr)
            &&& tr.from == Holder::Account(buyer)
            &&& tr.to is Escrow
            &&& tr.amount == p.locked_funds
            &&& s.token == Some(tr.token)
            &&& o.event == Some(Event::Purchased { credit_id, buyer })
        },
{
    if amount > 0 && s.has_credit(credit_id) && s.credit(credit_id).is_listed {
        let idx = credit_id - 1;
        assert(crate::model::credit_wf(s.credits[idx], idx, s.purchases));
        let price = s.credit(credit_id).price_per_ton;
        assert(amount * price > 0) by (nonlinear_arith)
            requires
                amount > 0,
                price > 0,
        ;
    }
}

/// `confirm_delivery` is accepted exactly when the buyer confirms a pending
/// purchase and a new credit id is free. The escrowed funds go to the
/// seller, the purchase is confirmed, and the buyer gets a new verified,
/// unlisted credit of the bought tons, of the same project and creator as
/// the credit the tons came from.
pub proof fn confirm_delivery_rule(s: MarketState, buyer: AccountId, purchase_id: u64, now: u64)
    requires
        s.wf(),
    ensures
        confirm_delivery_step(s, buyer, purchase_id, now) is Ok <==> {
            &&& s.has_purchase(purchase_id)
            &&& s.purchase(purchase_id).buyer@ == buyer@
            &&& s.purchase(purchase_id).status == PurchaseStatus::Pending
            &&& s.credits.len() < u64::MAX
        },
        confirm_delivery_step(s, buyer, purchase_id, now) matches Ok((t, o)) ==> {
            let p = s.purchase(purchase_id);
            let parent = s.credit(p.credit_id);
            let minted = t.credit(o.value);
            &&& o.value == s.credits.len() + 1
            &&& t.credits.len() == s.credits.len() + 1
            &&& forall|i: int| 0 <= i < s.credits.len() ==> #[trigger] t.credits[i] == s.credits[i]
            &&& minted.id == o.value
            &&& minted.owner_address == buyer
            &&& minted.carbon_amount == p.amount_purchased
            &&& minted.creator_address == parent.creator_address
            &&& minted.project_name == parent.project_name
            &&& minted.verification_status == VerificationStatus::Verified
            &&& !minted.is_listed
            &&& minted.price_per_ton == 0
            &&& minted.timestamp == now
            &&& t.purchases.len() == s.purchases.len()
            &&& t.purchase(purchase_id).status == PurchaseStatus::Confirmed
            &&& other_purchases_kept(s, t, purchase_id)
            &&& o.event == Some(Event::Released { purchase_id, credit_id: o.value })
            &&& o.transfer matches Some(tr)
            &&& tr.from is Escrow
            &&& tr.to == Holder::Account(p.seller)
            &&& tr.amount == p.locked_funds
            &&& s.token == Some(tr.token)
        },
{
    if s.has_purchase(purchase_id) {
        let j = purchase_id - 1;
        assert(purchase_wf(s.purchases[j], j, s.credits.len()));
    }
}

/// `cancel_purchase` is accepted exactly when the buyer or the seller calls
/// off a pending purchase after its deadline. The buyer gets the escrowed
/// funds back, the credit gets the tons back, and the purchase is cancelled.
pub proof fn cancel_purchase_rule(s: MarketState, caller: AccountId, purchase_id: u64, now: u64)
    requires
        s.wf(),
    ensures
        cancel_purchase_step(s, caller, purchase_id, now) is Ok <==> {
            &&& s.has_purchase(purchase_id)
            &&& (caller@ == s.purchase(purchase_id).buyer@ || caller@ == s.purchase(
                purchase_id,
            ).seller@)
            &&& s.purchase(purchase_id).status == PurchaseStatus::Pending
            &&& now > s.purchase(purchase_id).deadline
        },
        cancel_purchase_step(s, caller, purchase_id, now) matches Ok((t, o)) ==> {
            let p = s.purchase(purchase_id);
            &&& t.credits.len() == s.credits.len()
            &&& t.credit(p.credit_id).carbon_amount == s.credit(p.credit_id).carbon_amount
                + p.amount_purchased
            &&& t.credit(p.credit_id).is_listed == s.credit(p.credit_id).is_listed
            &&& t.credit(p.credit_id).owner_address == s.credit(p.credit_id).owner_address
            &&& other_credits_kept(s, t, p.credit_id)
            &&& t.purchases.len() == s.purchases.len()
            &&& t.purchase(purchase_id).status == PurchaseStatus::Cancelled
            &&& other_purchases_kept(s, t, purchase_id)
            &&& o.event == Some(Event::Cancelled { purchase_id, caller })
            &&& o.transfer matches Some(tr)
            &&& tr.from is Escrow
            &&& tr.to == Holder::Account(p.buyer)
            &&& tr.amount == p.locked_funds
            &&& s.token == Some(tr.token)
        },
{
    if cancel_purchase_step(s, caller, purchase_id, now) is Ok {
        crate::laws::lemma_refunded(s, purchase_id, PurchaseStatus::Cancelled);
        let j = purchase_id - 1;
        assert(purchase_wf(s.purchases[j], j, s.credits.len()));
    }
}

/// `resolve_dispute` is accepted exactly when the admin settles an open
/// purchase (pending or disputed), with a free credit id when the seller is
/// paid. The purchase is then resolved: either the buyer is refunded and the
/// credit gets the tons back, or the seller is paid and the buyer gets the
/// tons as a new credit of the same project and creator.
pub proof fn resolve_dispute_rule(
    s: MarketState,
    admin: AccountId,
    purchase_id: u64,
    refund_buyer: bool,
    now: u64,
)
    requires
        s.wf(),
    ensures
        resolve_dispute_step(s, admin, purchase_id, refund_buyer, now) is Ok <==> {
            &&& s.admin matches Some(a) && a@ == admin@
            &&& s.has_purchase(purchase_id)
            &&& (s.purchase(purchase_id).status == PurchaseStatus::Pending || s.purchase(
                purchase_id,
            ).status == PurchaseStatus::Disputed)
            &&& (refund_buyer || s.credits.len() < u64::MAX)
        },
        resolve_dispute_step(s, admin, purchase_id, refund_buyer, now) matches Ok((t, o)) ==> {
            let p = s.purchase(purchase_id);
            let parent = s.credit(p.credit_id);
            &&& t.purchases.len() == s.purchases.len()
            &&& t.purchase(purchase_id).status == PurchaseStatus::Resolved
            &&& other_purchases_kept(s, t, purchase_id)
            &&& o.event == Some(Event::Resolved { purchase_id, refund_buyer })
            &&& o.transfer matches Some(tr)
            &&& tr.from is Escrow
            &&& tr.amount == p.locked_funds
            &&& s.token == Some(tr.token)
            &&& refund_buyer ==> {
                &&& tr.to == Holder::Account(p.buyer)
                &&& t.credits.len() == s.credits.len()
                &&& t.credit(p.credit_id).carbon_amount == parent.carbon_amount
                    + p.amount_purchased
                &&& other_credits_kept(s, t, p.credit_id)
            }
            &&& !refund_buyer ==> {
                let minted = t.credit((s.credits.len() + 1) as u64);
                &&& tr.to == Holder::Account(p.seller)
                &&& t.credits.len() == s.credits.len() + 1
                &&& forall|i: int|
                    0 <= i < s.credits.len() ==> #[trigger] t.credits[i] == s.credits[i]
                &&& minted.owner_address == p.buyer
                &&& minted.carbon_amount == p.amount_purchased
                &&& minted.creator_address == parent.creator_address
                &&& minted.project_name == parent.project_name
                &&& minted.verification_status == VerificationStatus::Verified
                &&& !minted.is_listed
                &&& minted.price_per_ton == 0
                &&& minted.timestamp == now
            }
        },
{
    if resolve_dispute_step(s, admin, purchase_id, refund_buyer, now) is Ok {
        let j = purchase_id - 1;
        assert(purchase_wf(s.purchases[j], j, s.credits.len()));
        if refund_buyer {
            crate::laws::lemma_refunded(s, purchase_id, PurchaseStatus::Resolved);
        }
    }
}

/// `mark_disputed` is accepted exactly when the buyer or the seller marks a
/// pending purchase; it becomes disputed and nothing else changes.
pub proof fn mark_disputed_rule(s: MarketState, caller: AccountId, purchase_id: u64)
    requires
        s.wf(),
    ensures
        mark_disputed_step(s, caller, purchase_id) is Ok <==> {
            &&& s.has_purchase(purchase_id)
            &&& (caller@ == s.purchase(purchase_id).buyer@ || caller@ == s.purchase(
                purchase_id,
            ).seller@)
            &&& s.purchase(purchase_id).status == PurchaseStatus::Pending
        },
        mark_disputed_step(s, caller, purchase_id) matches Ok((t, o)) ==> {
            &&& t.credits == s.credits
            &&& t.purchases.len() == s.purchases.len()
            &&& t.purchase(purchase_id).status == PurchaseStatus::Disputed
            &&& t.purchase(purchase_id).locked_funds == s.purchase(purchase_id).locked_funds
            &&& other_purchases_kept(s, t, purchase_id)
            &&& o.transfer is None
            &&& o.event is None
        },
{
}

} // verus!
