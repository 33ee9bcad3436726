//! The laws of the marketplace, proved of every call.
//!
//! Each accepted call keeps the state well formed, only lets the state evolve
//! as `MarketState::evolves_to` allows, creates carbon only when a new credit
//! is issued, and moves exactly as much into or out of escrow as the funds
//! that open purchases lock.

use vstd::prelude::*;
use crate::model::{
    call_effect, replay, tons_issued, Call,
    buy_credit_step, cancel_purchase_step, carbon_held, carbon_reserved, carbon_reserved_from,
    confirm_delivery_step, create_credit_step, credit_lookup, credit_wf, escrow_inflow,
    fractional_credit, funds_escrowed, init_step, is_open, list_credit_step, mark_disputed_step,
    new_credit, purchase_lookup, purchase_wf, refunded, status_may_follow, resolve_dispute_step, unlist_credit_step,
    upgrade_step, verify_credit_step, MarketState, Step, LOCK_PERIOD,
};
use crate::sums::{lemma_sum_nonnegative, lemma_sum_push, lemma_sum_update, lemma_sum_zero, sum_of};
use crate::types::{AccountId, Credit, MarketError, Purchase, PurchaseStatus, VerificationStatus};

verus! {

/// An accepted call from `s` (with outcome `step`) keeps the books: the next
/// state is well formed and evolves from `s`, the carbon in the market grows
/// by exactly `issued`, and the escrow changes by exactly the call's transfer.
pub open spec fn keeps_books<T>(s: MarketState, step: Step<T>, issued: int) -> bool {
    match step {
        Ok((t, o)) => {
            &&& t.wf()
            &&& s.evolves_to(t)
            &&& t.total_carbon() == s.total_carbon() + issued
            &&& t.escrow_balance() == s.escrow_balance() + escrow_inflow(o.transfer)
        },
        Err(_) => true,
    }
}

/// The state of a freshly deployed contract is well formed.
pub proof fn deployed_is_well_formed()
    ensures
        MarketState::deployed().wf(),
        MarketState::deployed().total_carbon() == 0,
        MarketState::deployed().escrow_balance() == 0,
{
}

/// In a well formed state no book is negative, so every payout out of
/// escrow is covered by what the escrow holds.
pub proof fn books_are_nonnegative(s: MarketState)
    requires
        s.wf(),
    ensures
        s.total_carbon() >= 0,
        s.escrow_balance() >= 0,
{
    assert forall|k: int| 0 <= k < s.credits.len() implies carbon_held()(
        #[trigger] s.credits[k],
    ) >= 0 by {
        assert(credit_wf(s.credits[k], k, s.purchases));
    }
    lemma_sum_nonnegative(s.credits, carbon_held());
    assert forall|k: int| 0 <= k < s.purchases.len() implies carbon_reserved()(
        #[trigger] s.purchases[k],
    ) >= 0 by {
        assert(purchase_wf(s.purchases[k], k, s.credits.len()));
    }
    lemma_sum_nonnegative(s.purchases, carbon_reserved());
    assert forall|k: int| 0 <= k < s.purchases.len() implies funds_escrowed()(
        #[trigger] s.purchases[k],
    ) >= 0 by {
        assert(purchase_wf(s.purchases[k], k, s.credits.len()));
    }
    lemma_sum_nonnegative(s.purchases, funds_escrowed());
}

/// Replacing a credit by one with the same id, project, creator and tons
/// (listed only at a positive price) keeps every book.
proof fn lemma_credit_rewritten(s: MarketState, id: u64, c: Credit)
    requires
        s.wf(),
        s.has_credit(id),
        c.id == id,
        c.project_name == s.credit(id).project_name,
        c.creator_address == s.credit(id).creator_address,
        c.carbon_amount == s.credit(id).carbon_amount,
        c.is_listed ==> c.price_per_ton > 0,
    ensures
        s.with_credit(id, c).wf(),
        s.evolves_to(s.with_credit(id, c)),
        s.with_credit(id, c).total_carbon() == s.total_carbon(),
        s.with_credit(id, c).escrow_balance() == s.escrow_balance(),
{
    let t = s.with_credit(id, c);
    lemma_sum_update(s.credits, id - 1, c, carbon_held());
    assert forall|i: int| 0 <= i < t.credits.len() implies credit_wf(
        #[trigger] t.credits[i],
        i,
        t.purchases,
    ) by {
        assert(credit_wf(s.credits[i], i, s.purchases));
    }
    assert forall|j: int| 0 <= j < t.purchases.len() implies purchase_wf(
        #[trigger] t.purchases[j],
        j,
        t.credits.len(),
    ) by {
        assert(purchase_wf(s.purchases[j], j, s.credits.len()));
    }
}

/// Law of `init`.
pub proof fn init_keeps_books(s: MarketState, admin: AccountId, token: AccountId)
    requires
        s.wf(),
    ensures
        keeps_books(s, init_step(s, admin, token), 0),
{
}

/// Law of `upgrade`.
pub proof fn upgrade_keeps_books(s: MarketState, admin: AccountId)
    requires
        s.wf(),
    ensures
        keeps_books(s, upgrade_step(s, admin), 0),
{
}

/// Law of `create_credit`: the market grows by exactly the new credit's
/// tons, and the new credit reads back as created.
pub proof fn create_credit_keeps_books(
    s: MarketState,
    creator: AccountId,
    project_name: String,
    carbon_amount: i128,
    now: u64,
)
    requires
        s.wf(),
    ensures
        keeps_books(
            s,
            create_credit_step(s, creator, project_name, carbon_amount, now),
            carbon_amount as int,
        ),
        create_credit_step(s, creator, project_name, carbon_amount, now) matches Ok((t, o))
            ==> credit_lookup(t, o.value) == Ok::<Credit, MarketError>(
            new_credit(o.value, creator, project_name, carbon_amount, now),
        ),
{
    if let Ok((t, o)) = create_credit_step(s, creator, project_name, carbon_amount, now) {
        let id = s.next_credit_id();
        let c = new_credit(id, creator, project_name, carbon_amount, now);
        lemma_sum_push(s.credits, c, carbon_held());
        assert forall|k: int| 0 <= k < s.purchases.len() implies carbon_reserved_from(id)(
            #[trigger] s.purchases[k],
        ) == 0 by {
            assert(purchase_wf(s.purchases[k], k, s.credits.len()));
        }
        lemma_sum_zero(s.purchases, carbon_reserved_from(id));
        assert forall|i: int| 0 <= i < t.credits.len() implies credit_wf(
            #[trigger] t.credits[i],
            i,
            t.purchases,
        ) by {
            if i < s.credits.len() {
                assert(credit_wf(s.credits[i], i, s.purchases));
            }
        }
        assert forall|j: int| 0 <= j < t.purchases.len() implies purchase_wf(
            #[trigger] t.purchases[j],
            j,
            t.credits.len(),
        ) by {
            assert(purchase_wf(s.purchases[j], j, s.credits.len()));
        }
    }
}

/// Law of `verify_credit`.
pub proof fn verify_credit_keeps_books(
    s: MarketState,
    admin: AccountId,
    credit_id: u64,
    status: VerificationStatus,
)
    requires
        s.wf(),
    ensures
        keeps_books(s, verify_credit_step(s, admin, credit_id, status), 0),
{
    if let Ok(_) = verify_credit_step(s, admin, credit_id, status) {
        assert(credit_wf(s.credits[credit_id - 1], credit_id - 1, s.purchases));
        lemma_credit_rewritten(
            s,
            credit_id,
            Credit { verification_status: status, ..s.credit(credit_id) },
        );
    }
}

/// Law of `list_credit`.
pub proof fn list_credit_keeps_books(
    s: MarketState,
    owner: AccountId,
    credit_id: u64,
    price_per_ton: i128,
)
    requires
        s.wf(),
    ensures
        keeps_books(s, list_credit_step(s, owner, credit_id, price_per_ton), 0),
{
    if let Ok(_) = list_credit_step(s, owner, credit_id, price_per_ton) {
        assert(credit_wf(s.credits[credit_id - 1], credit_id - 1, s.purchases));
        lemma_credit_rewritten(
            s,
            credit_id,
            Credit { is_listed: true, price_per_ton, ..s.credit(credit_id) },
        );
    }
}

/// Law of `unlist_credit`.
pub proof fn unlist_credit_keeps_books(s: MarketState, owner: AccountId, credit_id: u64)
    requires
        s.wf(),
    ensures
        keeps_books(s, unlist_credit_step(s, owner, credit_id), 0),
{
    if let Ok(_) = unlist_credit_step(s, owner, credit_id) {
        assert(credit_wf(s.credits[credit_id - 1], credit_id - 1, s.purchases));
        lemma_credit_rewritten(s, credit_id, Credit { is_listed: false, ..s.credit(credit_id) });
    }
}

/// Law of `buy_credit`: the bought tons move from the credit into the
/// purchase, and the price moves from the buyer into escrow.
pub proof fn buy_credit_keeps_books(
    s: MarketState,
    buyer: AccountId,
    credit_id: u64,
    amount: i128,
    now: u64,
)
    requires
        s.wf(),
    ensures
        keeps_books(s, buy_credit_step(s, buyer, credit_id, amount, now), 0),
        buy_credit_step(s, buyer, credit_id, amount, now) matches Ok((t, o)) ==> {
            &&& purchase_lookup(t, o.value) matches Ok(p)
            &&& p.status == PurchaseStatus::Pending
            &&& p.buyer == buyer
            &&& p.amount_purchased == amount
            &&& p.locked_funds == amount * s.credit(credit_id).price_per_ton
            &&& p.deadline == now + LOCK_PERIOD
            &&& credit_lookup(t, credit_id) matches Ok(c)
            &&& c.carbon_amount == s.credit(credit_id).carbon_amount - amount
        },
{
    if let Ok((t, o)) = buy_credit_step(s, buyer, credit_id, amount, now) {
        let idx = credit_id - 1;
        let c = s.credit(credit_id);
        assert(credit_wf(s.credits[idx], idx, s.purchases));
        let price_per_ton = c.price_per_ton;
        assert(amount * price_per_ton > 0) by (nonlinear_arith)
            requires
                amount > 0,
                price_per_ton > 0,
        ;
        let c2 = t.credits[idx];
        let p = t.purchases[s.purchases.len() as int];
        assert(t.purchases == s.purchases.push(p));
        assert(t.credits == s.credits.update(idx, c2));
        lemma_sum_update(s.credits, idx, c2, carbon_held());
        lemma_sum_push(s.purchases, p, carbon_reserved());
        lemma_sum_push(s.purchases, p, funds_escrowed());
        assert forall|i: int| 0 <= i < t.credits.len() implies credit_wf(
            #[trigger] t.credits[i],
            i,
            t.purchases,
        ) by {
            assert(credit_wf(s.credits[i], i, s.purchases));
            lemma_sum_push(s.purchases, p, carbon_reserved_from(s.credits[i].id));
        }
        assert forall|j: int| 0 <= j < t.purchases.len() implies purchase_wf(
            #[trigger] t.purchases[j],
            j,
            t.credits.len(),
        ) by {
            if j < s.purchases.len() {
                assert(purchase_wf(s.purchases[j], j, s.credits.len()));
            }
        }
    }
}

/// The open purchase `purchase_id` ends with the closed `status` and its
/// tons go back to the credit they came from.
pub(crate) proof fn lemma_refunded(s: MarketState, purchase_id: u64, status: PurchaseStatus)
    requires
        s.wf(),
        s.has_purchase(purchase_id),
        is_open(s.purchase(purchase_id).status),
        !is_open(status),
        status_may_follow(s.purchase(purchase_id).status, status),
    ensures
        refunded(s, purchase_id, status).wf(),
        s.evolves_to(refunded(s, purchase_id, status)),
        refunded(s, purchase_id, status).total_carbon() == s.total_carbon(),
        refunded(s, purchase_id, status).escrow_balance() == s.escrow_balance()
            - s.purchase(purchase_id).locked_funds,
        s.credit(s.purchase(purchase_id).credit_id).carbon_amount + s.purchase(
            purchase_id,
        ).amount_purchased <= i128::MAX,
{
    let j0 = purchase_id - 1;
    let p = s.purchase(purchase_id);
    assert(purchase_wf(s.purchases[j0], j0, s.credits.len()));
    let cid = p.credit_id;
    let idx = cid - 1;
    let c = s.credit(cid);
    assert(credit_wf(s.credits[idx], idx, s.purchases));
    let p2 = Purchase { status, ..p };
    let ps2 = s.purchases.update(j0, p2);
    lemma_sum_update(s.purchases, j0, p2, carbon_reserved_from(cid));
    assert forall|k: int| 0 <= k < ps2.len() implies carbon_reserved_from(cid)(#[trigger] ps2[k])
        >= 0 by {
        if k != j0 {
            assert(purchase_wf(s.purchases[k], k, s.credits.len()));
        }
    }
    lemma_sum_nonnegative(ps2, carbon_reserved_from(cid));
    let t = refunded(s, purchase_id, status);
    let c2 = Credit { carbon_amount: (c.carbon_amount + p.amount_purchased) as i128, ..c };
    assert(t.credits == s.credits.update(idx, c2));
    assert(t.purchases == ps2);
    lemma_sum_update(s.credits, idx, c2, carbon_held());
    lemma_sum_update(s.purchases, j0, p2, carbon_reserved());
    lemma_sum_update(s.purchases, j0, p2, funds_escrowed());
    assert forall|i: int| 0 <= i < t.credits.len() implies credit_wf(
        #[trigger] t.credits[i],
        i,
        t.purchases,
    ) by {
        assert(credit_wf(s.credits[i], i, s.purchases));
        lemma_sum_update(s.purchases, j0, p2, carbon_reserved_from(s.credits[i].id));
    }
    assert forall|j: int| 0 <= j < t.purchases.len() implies purchase_wf(
        #[trigger] t.purchases[j],
        j,
        t.credits.len(),
    ) by {
        assert(purchase_wf(s.purchases[j], j, s.credits.len()));
    }
}

/// The open purchase `purchase_id` ends with the closed `status` and its
/// tons become a new credit owned by `owner`.
proof fn lemma_minted(
    s: MarketState,
    purchase_id: u64,
    status: PurchaseStatus,
    owner: AccountId,
    now: u64,
)
    requires
        s.wf(),
        s.has_purchase(purchase_id),
        is_open(s.purchase(purchase_id).status),
        !is_open(status),
        status_may_follow(s.purchase(purchase_id).status, status),
        s.credits.len() < u64::MAX,
    ensures
        ({
            let p = s.purchase(purchase_id);
            let t = MarketState {
                credits: s.credits.push(
                    fractional_credit(s.next_credit_id(), s.credit(p.credit_id), p, owner, now),
                ),
                ..s.with_purchase(purchase_id, Purchase { status, ..p })
            };
            &&& t.wf()
            &&& s.evolves_to(t)
            &&& t.total_carbon() == s.total_carbon()
            &&& t.escrow_balance() == s.escrow_balance() - p.locked_funds
        }),
{
    let j0 = purchase_id - 1;
    let p = s.purchase(purchase_id);
    assert(purchase_wf(s.purchases[j0], j0, s.credits.len()));
    let id = s.next_credit_id();
    let minted = fractional_credit(id, s.credit(p.credit_id), p, owner, now);
    let p2 = Purchase { status, ..p };
    let t = MarketState {
        credits: s.credits.push(minted),
        ..s.with_purchase(purchase_id, p2)
    };
    lemma_sum_push(s.credits, minted, carbon_held());
    lemma_sum_update(s.purchases, j0, p2, carbon_reserved());
    lemma_sum_update(s.purchases, j0, p2, funds_escrowed());
    assert forall|k: int| 0 <= k < t.purchases.len() implies carbon_reserved_from(id)(
        #[trigger] t.purchases[k],
    ) == 0 by {
        assert(purchase_wf(s.purchases[k], k, s.credits.len()));
    }
    lemma_sum_zero(t.purchases, carbon_reserved_from(id));
    assert forall|i: int| 0 <= i < t.credits.len() implies credit_wf(
        #[trigger] t.credits[i],
        i,
        t.purchases,
    ) by {
        if i < s.credits.len() {
            assert(credit_wf(s.credits[i], i, s.purchases));
            lemma_sum_update(s.purchases, j0, p2, carbon_reserved_from(s.credits[i].id));
        }
    }
    assert forall|j: int| 0 <= j < t.purchases.len() implies purchase_wf(
        #[trigger] t.purchases[j],
        j,
        t.credits.len(),
    ) by {
        assert(purchase_wf(s.purchases[j], j, s.credits.len()));
    }
}

/// Law of `confirm_delivery`: the escrowed price goes to the seller and the
/// bought tons become the buyer's own credit.
pub proof fn confirm_delivery_keeps_books(
    s: MarketState,
    buyer: AccountId,
    purchase_id: u64,
    now: u64,
)
    requires
        s.wf(),
    ensures
        keeps_books(s, confirm_delivery_step(s, buyer, purchase_id, now), 0),
        confirm_delivery_step(s, buyer, purchase_id, now) matches Ok((t, o)) ==> {
            &&& credit_lookup(t, o.value) matches Ok(c)
            &&& c.owner_address == buyer
            &&& c.carbon_amount == s.purchase(purchase_id).amount_purchased
            &&& c.project_name == s.credit(s.purchase(purchase_id).credit_id).project_name
            &&& purchase_lookup(t, purchase_id) matches Ok(p)
            &&& p.status == PurchaseStatus::Confirmed
        },
{
    if let Ok(_) = confirm_delivery_step(s, buyer, purchase_id, now) {
        lemma_minted(s, purchase_id, PurchaseStatus::Confirmed, buyer, now);
    }
}

/// Law of `cancel_purchase`: the escrowed price goes back to the buyer and
/// the tons back to the credit.
pub proof fn cancel_purchase_keeps_books(
    s: MarketState,
    caller: AccountId,
    purchase_id: u64,
    now: u64,
)
    requires
        s.wf(),
    ensures
        keeps_books(s, cancel_purchase_step(s, caller, purchase_id, now), 0),
{
    if let Ok(_) = cancel_purchase_step(s, caller, purchase_id, now) {
        lemma_refunded(s, purchase_id, PurchaseStatus::Cancelled);
    }
}

/// Law of `resolve_dispute`: either the buyer is refunded as in a
/// cancellation, or the seller is paid as in a confirmed delivery.
pub proof fn resolve_dispute_keeps_books(
    s: MarketState,
    admin: AccountId,
    purchase_id: u64,
    refund_buyer: bool,
    now: u64,
)
    requires
        s.wf(),
    ensures
        keeps_books(s, resolve_dispute_step(s, admin, purchase_id, refund_buyer, now), 0),
{
    if let Ok(_) = resolve_dispute_step(s, admin, purchase_id, refund_buyer, now) {
        if refund_buyer {
            lemma_refunded(s, purchase_id, PurchaseStatus::Resolved);
        } else {
            lemma_minted(
                s,
                purchase_id,
                PurchaseStatus::Resolved,
                s.purchase(purchase_id).buyer,
                now,
            );
        }
    }
}

/// Law of `mark_disputed`: a dispute freezes the purchase as it stands.
pub proof fn mark_disputed_keeps_books(s: MarketState, caller: AccountId, purchase_id: u64)
    requires
        s.wf(),
    ensures
        keeps_books(s, mark_disputed_step(s, caller, purchase_id), 0),
{
    if let Ok((t, _)) = mark_disputed_step(s, caller, purchase_id) {
        let j0 = purchase_id - 1;
        let p2 = t.purchases[j0];
        assert(t.purchases == s.purchases.update(j0, p2));
        lemma_sum_update(s.purchases, j0, p2, carbon_reserved());
        lemma_sum_update(s.purchases, j0, p2, funds_escrowed());
        assert forall|i: int| 0 <= i < t.credits.len() implies credit_wf(
            #[trigger] t.credits[i],
            i,
            t.purchases,
        ) by {
            assert(credit_wf(s.credits[i], i, s.purchases));
            lemma_sum_update(s.purchases, j0, p2, carbon_reserved_from(s.credits[i].id));
        }
        assert forall|j: int| 0 <= j < t.purchases.len() implies purchase_wf(
            #[trigger] t.purchases[j],
            j,
            t.credits.len(),
        ) by {
            assert(purchase_wf(s.purchases[j], j, s.credits.len()));
        }
    }
}

/// What a sequence of calls leads to may be taken as one step: the relation
/// between a state and a later one is transitive.
pub proof fn evolution_is_transitive(a: MarketState, b: MarketState, c: MarketState)
    requires
        a.evolves_to(b),
        b.evolves_to(c),
    ensures
        a.evolves_to(c),
{
    assert forall|j: int| 0 <= j < a.purchases.len() implies status_may_follow(
        a.purchases[j].status,
        #[trigger] c.purchases[j].status,
    ) by {
        assert(b.purchases[j] == Purchase { status: b.purchases[j].status, ..a.purchases[j] });
    }
    assert forall|i: int| 0 <= i < a.credits.len() implies #[trigger] c.credits[i].id
        == a.credits[i].id by {
        assert(b.credits[i].id == a.credits[i].id);
    }
}

/// Every payout out of escrow is covered by the funds that the escrow held
/// before the call.
pub proof fn payouts_are_covered<T>(s: MarketState, step: Step<T>, issued: int)
    requires
        s.wf(),
        keeps_books(s, step, issued),
    ensures
        step matches Ok((t, o)) ==> match o.transfer {
            Some(tr) => tr.from is Escrow && tr.to is Account ==> tr.amount <= s.escrow_balance(),
            None => true,
        },
{
    if let Ok((t, o)) = step {
        books_are_nonnegative(t);
    }
}

/// Every call, accepted or not, keeps the books.
pub proof fn call_keeps_books(s: MarketState, c: Call)
    requires
        s.wf(),
    ensures
        call_effect(s, c) matches Some((t, transfer)) ==> {
            &&& t.wf()
            &&& s.evolves_to(t)
            &&& t.total_carbon() == s.total_carbon() + tons_issued(c)
            &&& t.escrow_balance() == s.escrow_balance() + escrow_inflow(transfer)
        },
{
    match c {
        Call::Init { admin, token } => init_keeps_books(s, admin, token),
        Call::Upgrade { admin } => upgrade_keeps_books(s, admin),
        Call::CreateCredit { creator, project_name, carbon_amount, now } => {
            create_credit_keeps_books(s, creator, project_name, carbon_amount, now)
        },
        Call::VerifyCredit { admin, credit_id, status } => {
            verify_credit_keeps_books(s, admin, credit_id, status)
        },
        Call::ListCredit { owner, credit_id, price_per_ton } => {
            list_credit_keeps_books(s, owner, credit_id, price_per_ton)
        },
        Call::UnlistCredit { owner, credit_id } => unlist_credit_keeps_books(s, owner, credit_id),
        Call::BuyCredit { buyer, credit_id, amount, now } => {
            buy_credit_keeps_books(s, buyer, credit_id, amount, now)
        },
        Call::ConfirmDelivery { buyer, purchase_id, now } => {
            confirm_delivery_keeps_books(s, buyer, purchase_id, now)
        },
        Call::CancelPurchase { caller, purchase_id, now } => {
            cancel_purchase_keeps_books(s, caller, purchase_id, now)
        },
        Call::ResolveDispute { admin, purchase_id, refund_buyer, now } => {
            resolve_dispute_keeps_books(s, admin, purchase_id, refund_buyer, now)
        },
        Call::MarkDisputed { caller, purchase_id } => {
            mark_disputed_keeps_books(s, caller, purchase_id)
        },
    }
}

/// A state evolves to itself.
pub proof fn evolution_is_reflexive(s: MarketState)
    ensures
        s.evolves_to(s),
{
}

/// Over any history of calls from a freshly deployed contract: the state
/// stays well formed and only evolves as allowed; the token balance held in
/// escrow always equals the funds locked by open purchases (so it never goes
/// negative); and the carbon in the market is exactly the tons issued by
/// `create_credit`, since fractional trading only moves tons around.
pub proof fn history_keeps_books(calls: Seq<Call>)
    ensures
        ({
            let (t, held, issued) = replay(MarketState::deployed(), calls);
            &&& t.wf()
            &&& MarketState::deployed().evolves_to(t)
            &&& held == t.escrow_balance()
            &&& held >= 0
            &&& t.total_carbon() == issued
        }),
    decreases calls.len(),
{
    let s0 = MarketState::deployed();
    deployed_is_well_formed();
    if calls.len() == 0 {
        evolution_is_reflexive(s0);
    } else {
        history_keeps_books(calls.drop_last());
        let (before, held, issued) = replay(s0, calls.drop_last());
        call_keeps_books(before, calls.last());
        if let Some((after, _)) = call_effect(before, calls.last()) {
            evolution_is_transitive(s0, before, after);
        }
        let (t, _, _) = replay(s0, calls);
        books_are_nonnegative(t);
    }
}

} // verus!
