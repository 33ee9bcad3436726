//! The contract: its state and its calls.
//!
//! Each call takes the caller's identity as already authenticated, and the
//! ledger's time where it needs one. An accepted call returns its outcome:
//! the value, the token transfer that the host must make, and the event to
//! publish. A rejected call returns why and changes nothing.

use vstd::prelude::*;
use crate::laws::{
    buy_credit_keeps_books, cancel_purchase_keeps_books, confirm_delivery_keeps_books,
    create_credit_keeps_books, deployed_is_well_formed, init_keeps_books, lemma_refunded,
    list_credit_keeps_books, mark_disputed_keeps_books, resolve_dispute_keeps_books,
    unlist_credit_keeps_books, verify_credit_keeps_books,
};
use crate::model::{
    applied, carbon_reserved_from, buy_credit_step, cancel_purchase_step, confirm_delivery_step, create_credit_step,
    credit_lookup, credit_wf, init_step, list_credit_step, mark_disputed_step, purchase_lookup,
    purchase_wf, resolve_dispute_step, unlist_credit_step, upgrade_step, verify_credit_step,
    MarketState, LOCK_PERIOD,
};
use crate::sums::{lemma_sum_prefix_le, lemma_sum_take_next, sum_of};
use crate::types::{
    AccountId, Credit, Event, Holder, MarketError, Outcome, Purchase, PurchaseStatus, Transfer,
    VerificationStatus,
};

verus! {

/// The carbon credit marketplace contract.
pub struct CarbonMarketplace {
    admin: Option<AccountId>,
    token: Option<AccountId>,
    credits: Vec<Credit>,
    purchases: Vec<Purchase>,
}

impl View for CarbonMarketplace {
    type V = MarketState;

    closed spec fn view(&self) -> MarketState {
        MarketState {
            admin: self.admin,
            token: self.token,
            credits: self.credits@,
            purchases: self.purchases@,
        }
    }
}

impl CarbonMarketplace {
    pub open spec fn wf(&self) -> bool {
        self@.wf()
    }

    /// A contract as deployed, before `init`.
    pub fn new() -> (m: CarbonMarketplace)
        ensures
            m@ == MarketState::deployed(),
            m.wf(),
    {
        let m = CarbonMarketplace {
            admin: None,
            token: None,
            credits: Vec::new(),
            purchases: Vec::new(),
        };
        proof {
            deployed_is_well_formed();
            assert(m@ == MarketState::deployed());
        }
        m
    }

    fn is_admin(&self, who: &AccountId) -> (b: bool)
        requires
            self.admin is Some,
        ensures
            b == self@.is_admin(*who),
    {
        match &self.admin {
            Some(a) => *a == *who,
            None => false,
        }
    }

    fn credit_index(&self, credit_id: u64) -> (r: Option<usize>)
        ensures
            r is Some == self@.has_credit(credit_id),
            r is Some ==> r->0 == credit_id - 1,
    {
        if 1 <= credit_id && credit_id <= self.credits.len() as u64 {
            Some((credit_id - 1) as usize)
        } else {
            None
        }
    }

    fn purchase_index(&self, purchase_id: u64) -> (r: Option<usize>)
        ensures
            r is Some == self@.has_purchase(purchase_id),
            r is Some ==> r->0 == purchase_id - 1,
    {
        if 1 <= purchase_id && purchase_id <= self.purchases.len() as u64 {
            Some((purchase_id - 1) as usize)
        } else {
            None
        }
    }

    fn token_id(&self) -> (t: AccountId)
        requires
            self.token is Some,
        ensures
            t == self@.token->0,
    {
        self.token.as_ref().unwrap().clone()
    }

    /// Sets the admin and the payment token, once.
    pub fn init(&mut self, admin: AccountId, token: AccountId) -> (r: Result<
        Outcome<()>,
        MarketError,
    >)
        requires
            old(self).wf(),
        ensures
            final(self).wf(),
            applied(old(self)@, final(self)@, r, init_step(old(self)@, admin, token)),
    {
        proof {
            init_keeps_books(self@, admin, token);
        }
        if self.admin.is_some() {
            return Err(MarketError::AlreadyInitialized);
        }
        self.admin = Some(admin);
        self.token = Some(token);
        Ok(Outcome { value: (), transfer: None, event: None })
    }

    /// Allows a code upgrade: only the admin may replace the contract's code.
    pub fn upgrade(&self, admin: AccountId) -> (r: Result<Outcome<()>, MarketError>)
        requires
            self.wf(),
        ensures
            applied(self@, self@, r, upgrade_step(self@, admin)),
    {
        if self.admin.is_none() {
            return Err(MarketError::NotInitialized);
        }
        if !self.is_admin(&admin) {
            return Err(MarketError::OnlyAdminCanUpgrade);
        }
        Ok(Outcome { value: (), transfer: None, event: None })
    }

    /// Issues a new credit of `carbon_amount` tons to its creator; returns its id.
    pub fn create_credit(
        &mut self,
        creator: AccountId,
        project_name: String,
        carbon_amount: i128,
        now: u64,
    ) -> (r: Result<Outcome<u64>, MarketError>)
        requires
            old(self).wf(),
        ensures
            final(self).wf(),
            applied(
                old(self)@,
                final(self)@,
                r,
                create_credit_step(old(self)@, creator, project_name, carbon_amount, now),
            ),
    {
        proof {
            create_credit_keeps_books(self@, creator, project_name, carbon_amount, now);
        }
        if carbon_amount <= 0 {
            return Err(MarketError::NonPositiveCarbonAmount);
        }
        if self.admin.is_none() {
            return Err(MarketError::NotInitialized);
        }
        let count = self.credits.len() as u64;
        if count == u64::MAX {
            return Err(MarketError::CounterOverflow);
        }
        let id = count + 1;
        let credit = Credit {
            id,
            project_name,
            carbon_amount,
            creator_address: creator.clone(),
            owner_address: creator.clone(),
            verification_status: VerificationStatus::Pending,
            is_listed: false,
            price_per_ton: 0,
            timestamp: now,
        };
        self.credits.push(credit);
        Ok(Outcome { value: id, transfer: None, event: Some(Event::Created { credit_id: id, creator }) })
    }

    /// The admin sets a credit's verification status.
    pub fn verify_credit(
        &mut self,
        admin: AccountId,
        credit_id: u64,
        status: VerificationStatus,
    ) -> (r: Result<Outcome<()>, MarketError>)
        requires
            old(self).wf(),
        ensures
            final(self).wf(),
            applied(
                old(self)@,
                final(self)@,
                r,
                verify_credit_step(old(self)@, admin, credit_id, status),
            ),
    {
        proof {
            verify_credit_keeps_books(self@, admin, credit_id, status);
        }
        if self.admin.is_none() {
            return Err(MarketError::NotInitialized);
        }
        if !self.is_admin(&admin) {
            return Err(MarketError::OnlyAdminCanVerify);
        }
        let idx = match self.credit_index(credit_id) {
            Some(i) => i,
            None => return Err(MarketError::CreditNotFound),
        };
        let mut c = self.credits[idx].clone();
        c.verification_status = status;
        self.credits.set(idx, c);
        Ok(Outcome { value: (), transfer: None, event: Some(Event::Verified { credit_id, status }) })
    }

    /// The owner of a verified credit offers its tons at `price_per_ton`.
    pub fn list_credit(&mut self, owner: AccountId, credit_id: u64, price_per_ton: i128) -> (r:
        Result<Outcome<()>, MarketError>)
        requires
            old(self).wf(),
        ensures
            final(self).wf(),
            applied(
                old(self)@,
                final(self)@,
                r,
                list_credit_step(old(self)@, owner, credit_id, price_per_ton),
            ),
    {
        proof {
            list_credit_keeps_books(self@, owner, credit_id, price_per_ton);
        }
        if price_per_ton <= 0 {
            return Err(MarketError::NonPositivePrice);
        }
        let idx = match self.credit_index(credit_id) {
            Some(i) => i,
            None => return Err(MarketError::CreditNotFound),
        };
        let mut c = self.credits[idx].clone();
        if !(c.owner_address == owner) {
            return Err(MarketError::OnlyOwnerCanList);
        }
        if c.verification_status != VerificationStatus::Verified {
            return Err(MarketError::CreditNotVerified);
        }
        if c.carbon_amount <= 0 {
            return Err(MarketError::NoCarbonToList);
        }
        c.is_listed = true;
        c.price_per_ton = price_per_ton;
        self.credits.set(idx, c);
        Ok(
            Outcome {
                value: (),
                transfer: None,
                event: Some(Event::Listed { credit_id, price_per_ton }),
            },
        )
    }

    /// The owner withdraws a credit from sale.
    pub fn unlist_credit(&mut self, owner: AccountId, credit_id: u64) -> (r: Result<
        Outcome<()>,
        MarketError,
    >)
        requires
            old(self).wf(),
        ensures
            final(self).wf(),
            applied(old(self)@, final(self)@, r, unlist_credit_step(old(self)@, owner, credit_id)),
    {
        proof {
            unlist_credit_keeps_books(self@, owner, credit_id);
        }
        let idx = match self.credit_index(credit_id) {
            Some(i) => i,
            None => return Err(MarketError::CreditNotFound),
        };
        let mut c = self.credits[idx].clone();
        if !(c.owner_address == owner) {
            return Err(MarketError::OnlyOwnerCanUnlist);
        }
        c.is_listed = false;
        self.credits.set(idx, c);
        Ok(Outcome { value: (), transfer: None, event: Some(Event::Unlisted { credit_id, owner }) })
    }

    /// Buys `amount` tons of a listed credit; the price goes into escrow and
    /// the purchase waits for delivery. Returns the purchase's id.
    pub fn buy_credit(&mut self, buyer: AccountId, credit_id: u64, amount: i128, now: u64) -> (r:
        Result<Outcome<u64>, MarketError>)
        requires
            old(self).wf(),
        ensures
            final(self).wf(),
            applied(
                old(self)@,
                final(self)@,
                r,
                buy_credit_step(old(self)@, buyer, credit_id, amount, now),
            ),
    {
        proof {
            buy_credit_keeps_books(self@, buyer, credit_id, amount, now);
        }
        if amount <= 0 {
            return Err(MarketError::NonPositivePurchase);
        }
        let idx = match self.credit_index(credit_id) {
            Some(i) => i,
            None => return Err(MarketError::CreditNotFound),
        };
        let mut c = self.credits[idx].clone();
        if !c.is_listed {
            return Err(MarketError::CreditNotListed);
        }
        if c.owner_address == buyer {
            return Err(MarketError::OwnerCannotBuy);
        }
        if c.carbon_amount < amount {
            return Err(MarketError::InsufficientCarbon);
        }
        let locked_funds = match amount.checked_mul(c.price_per_ton) {
            Some(v) => v,
            None => return Err(MarketError::PriceOverflow),
        };
        let count = self.purchases.len() as u64;
        if count == u64::MAX {
            return Err(MarketError::CounterOverflow);
        }
        if now > u64::MAX - LOCK_PERIOD {
            return Err(MarketError::DeadlineOverflow);
        }
        let token = self.token_id();
        let id = count + 1;
        let purchase = Purchase {
            id,
            credit_id,
            buyer: buyer.clone(),
            seller: c.owner_address.clone(),
            amount_purchased: amount,
            locked_funds,
            status: PurchaseStatus::Pending,
            timestamp: now,
            deadline: now + LOCK_PERIOD,
        };
        c.carbon_amount = c.carbon_amount - amount;
        if c.carbon_amount == 0 {
            c.is_listed = false;
        }
        self.credits.set(idx, c);
        self.purchases.push(purchase);
        Ok(
            Outcome {
                value: id,
                transfer: Some(
                    Transfer {
                        token,
                        from: Holder::Account(buyer.clone()),
                        to: Holder::Escrow,
                        amount: locked_funds,
                    },
                ),
                event: Some(Event::Purchased { credit_id, buyer }),
            },
        )
    }

    /// The new credit that passes the purchase at index `j` to `owner`.
    fn mint_fractional(&self, j: usize, owner: AccountId, now: u64) -> (c: Credit)
        requires
            self.wf(),
            j < self.purchases.len(),
            self.credits.len() < u64::MAX,
        ensures
            c == crate::model::fractional_credit(
                self@.next_credit_id(),
                self@.credit(self@.purchases[j as int].credit_id),
                self@.purchases[j as int],
                owner,
                now,
            ),
    {
        let p = &self.purchases[j];
        proof {
            assert(purchase_wf(self@.purchases[j as int], j as int, self@.credits.len()));
        }
        let parent = &self.credits[(p.credit_id - 1) as usize];
        Credit {
            id: self.credits.len() as u64 + 1,
            project_name: parent.project_name.clone(),
            carbon_amount: p.amount_purchased,
            creator_address: parent.creator_address.clone(),
            owner_address: owner,
            verification_status: VerificationStatus::Verified,
            is_listed: false,
            price_per_ton: 0,
            timestamp: now,
        }
    }

    /// The transfer that pays the escrowed funds of the purchase at index `j` to `to`.
    fn payout(&self, j: usize, to: AccountId) -> (t: Transfer)
        requires
            self.wf(),
            j < self.purchases.len(),
            self@.initialized(),
        ensures
            Some(t) == crate::model::payout(self@, self@.purchases[j as int], to),
    {
        Transfer {
            token: self.token_id(),
            from: Holder::Escrow,
            to: Holder::Account(to),
            amount: self.purchases[j].locked_funds,
        }
    }

    /// The tons of the purchase at index `j` go back to their credit and the
    /// purchase ends with `status`.
    fn refund(&mut self, j: usize, status: PurchaseStatus)
        requires
            old(self).wf(),
            j < old(self).purchases.len(),
            crate::model::is_open(old(self)@.purchases[j as int].status),
            !crate::model::is_open(status),
            crate::model::status_may_follow(old(self)@.purchases[j as int].status, status),
        ensures
            final(self)@ == crate::model::refunded(old(self)@, (j + 1) as u64, status),
    {
        proof {
            lemma_refunded(self@, (j + 1) as u64, status);
            assert(purchase_wf(self@.purchases[j as int], j as int, self@.credits.len()));
            assert(self.credits@.len() == self.credits.len());
        }
        let mut p = self.purchases[j].clone();
        let idx = (p.credit_id - 1) as usize;
        let mut c = self.credits[idx].clone();
        assert(c == self@.credit(p.credit_id));
        c.carbon_amount = c.carbon_amount + p.amount_purchased;
        p.status = status;
        self.purchases.set(j, p);
        self.credits.set(idx, c);
    }

    /// The buyer confirms delivery: the escrowed price goes to the seller and
    /// the bought tons become a new credit of the buyer's. Returns its id.
    pub fn confirm_delivery(&mut self, buyer: AccountId, purchase_id: u64, now: u64) -> (r: Result<
        Outcome<u64>,
        MarketError,
    >)
        requires
            old(self).wf(),
        ensures
            final(self).wf(),
            applied(
                old(self)@,
                final(self)@,
                r,
                confirm_delivery_step(old(self)@, buyer, purchase_id, now),
            ),
    {
        proof {
            confirm_delivery_keeps_books(self@, buyer, purchase_id, now);
        }
        let j = match self.purchase_index(purchase_id) {
            Some(j) => j,
            None => return Err(MarketError::PurchaseNotFound),
        };
        let mut p = self.purchases[j].clone();
        if !(p.buyer == buyer) {
            return Err(MarketError::OnlyBuyerCanConfirm);
        }
        if p.status != PurchaseStatus::Pending {
            return Err(MarketError::NotPending);
        }
        let count = self.credits.len() as u64;
        if count == u64::MAX {
            return Err(MarketError::CounterOverflow);
        }
        let transfer = self.payout(j, p.seller.clone());
        let minted = self.mint_fractional(j, buyer, now);
        let id = count + 1;
        p.status = PurchaseStatus::Confirmed;
        self.purchases.set(j, p);
        self.credits.push(minted);
        Ok(
            Outcome {
                value: id,
                transfer: Some(transfer),
                event: Some(Event::Released { purchase_id, credit_id: id }),
            },
        )
    }

    /// After the deadline, the buyer or the seller calls the purchase off:
    /// the buyer gets the escrowed price back and the credit its tons.
    pub fn cancel_purchase(&mut self, caller: AccountId, purchase_id: u64, now: u64) -> (r: Result<
        Outcome<()>,
        MarketError,
    >)
        requires
            old(self).wf(),
        ensures
            final(self).wf(),
            applied(
                old(self)@,
                final(self)@,
                r,
                cancel_purchase_step(old(self)@, caller, purchase_id, now),
            ),
    {
        proof {
            cancel_purchase_keeps_books(self@, caller, purchase_id, now);
        }
        let j = match self.purchase_index(purchase_id) {
            Some(j) => j,
            None => return Err(MarketError::PurchaseNotFound),
        };
        let p = self.purchases[j].clone();
        if !(p.buyer == caller) && !(p.seller == caller) {
            return Err(MarketError::OnlyPartiesCanCancel);
        }
        if p.status != PurchaseStatus::Pending {
            return Err(MarketError::NotPending);
        }
        if now <= p.deadline {
            return Err(MarketError::DeadlineNotExpired);
        }
        let transfer = self.payout(j, p.buyer);
        self.refund(j, PurchaseStatus::Cancelled);
        Ok(
            Outcome {
                value: (),
                transfer: Some(transfer),
                event: Some(Event::Cancelled { purchase_id, caller }),
            },
        )
    }

    /// The admin settles an open purchase: either the buyer is refunded, or
    /// the seller is paid and the buyer gets the tons as a new credit.
    pub fn resolve_dispute(
        &mut self,
        admin: AccountId,
        purchase_id: u64,
        refund_buyer: bool,
        now: u64,
    ) -> (r: Result<Outcome<()>, MarketError>)
        requires
            old(self).wf(),
        ensures
            final(self).wf(),
            applied(
                old(self)@,
                final(self)@,
                r,
                resolve_dispute_step(old(self)@, admin, purchase_id, refund_buyer, now),
            ),
    {
        proof {
            resolve_dispute_keeps_books(self@, admin, purchase_id, refund_buyer, now);
        }
        if self.admin.is_none() {
            return Err(MarketError::NotInitialized);
        }
        if !self.is_admin(&admin) {
            return Err(MarketError::OnlyAdminCanResolve);
        }
        let j = match self.purchase_index(purchase_id) {
            Some(j) => j,
            None => return Err(MarketError::PurchaseNotFound),
        };
        let mut p = self.purchases[j].clone();
        if !(p.status == PurchaseStatus::Pending || p.status == PurchaseStatus::Disputed) {
            return Err(MarketError::NotDisputable);
        }
        let event = Some(Event::Resolved { purchase_id, refund_buyer });
        if refund_buyer {
            let transfer = self.payout(j, p.buyer);
            self.refund(j, PurchaseStatus::Resolved);
            Ok(Outcome { value: (), transfer: Some(transfer), event })
        } else {
            if self.credits.len() as u64 == u64::MAX {
                return Err(MarketError::CounterOverflow);
            }
            let transfer = self.payout(j, p.seller.clone());
            let minted = self.mint_fractional(j, p.buyer.clone(), now);
            p.status = PurchaseStatus::Resolved;
            self.purchases.set(j, p);
            self.credits.push(minted);
            Ok(Outcome { value: (), transfer: Some(transfer), event })
        }
    }

    /// The buyer or the seller freezes a pending purchase for the admin to settle.
    pub fn mark_disputed(&mut self, caller: AccountId, purchase_id: u64) -> (r: Result<
        Outcome<()>,
        MarketError,
    >)
        requires
            old(self).wf(),
        ensures
            final(self).wf(),
            applied(
                old(self)@,
                final(self)@,
                r,
                mark_disputed_step(old(self)@, caller, purchase_id),
            ),
    {
        proof {
            mark_disputed_keeps_books(self@, caller, purchase_id);
        }
        let j = match self.purchase_index(purchase_id) {
            Some(j) => j,
            None => return Err(MarketError::PurchaseNotFound),
        };
        let mut p = self.purchases[j].clone();
        if !(p.buyer == caller) && !(p.seller == caller) {
            return Err(MarketError::NotInvolved);
        }
        if p.status != PurchaseStatus::Pending {
            return Err(MarketError::CannotDispute);
        }
        p.status = PurchaseStatus::Disputed;
        self.purchases.set(j, p);
        Ok(Outcome { value: (), transfer: None, event: None })
    }

    /// Reads a credit.
    pub fn get_credit(&self, credit_id: u64) -> (r: Result<Credit, MarketError>)
        ensures
            r == credit_lookup(self@, credit_id),
    {
        match self.credit_index(credit_id) {
            Some(i) => Ok(self.credits[i].clone()),
            None => Err(MarketError::CreditNotFound),
        }
    }

    /// Reads a purchase.
    pub fn get_purchase(&self, purchase_id: u64) -> (r: Result<Purchase, MarketError>)
        ensures
            r == purchase_lookup(self@, purchase_id),
    {
        match self.purchase_index(purchase_id) {
            Some(j) => Ok(self.purchases[j].clone()),
            None => Err(MarketError::PurchaseNotFound),
        }
    }
    /// Whether the credit `c`, stored at index `i`, is well formed among
    /// `purchases`: in particular whether its tons together with those that
    /// open purchases reserve from it still fit in an `i128`.
    fn credit_fits(c: &Credit, i: usize, purchases: &Vec<Purchase>, n: usize) -> (b: bool)
        requires
            i < n,
            forall|j: int|
                0 <= j < purchases@.len() ==> purchase_wf(#[trigger] purchases@[j], j, n as nat),
        ensures
            b == credit_wf(*c, i as int, purchases@),
    {
        if c.id != i as u64 + 1 {
            return false;
        }
        if c.carbon_amount < 0 {
            return false;
        }
        if c.is_listed && c.price_per_ton <= 0 {
            return false;
        }
        let ghost ps = purchases@;
        let ghost f = carbon_reserved_from(c.id);
        proof {
            assert forall|j: int| 0 <= j < ps.len() implies f(#[trigger] ps[j]) >= 0 by {
                assert(purchase_wf(ps[j], j, n as nat));
            }
            assert(ps.take(0) =~= Seq::<Purchase>::empty());
        }
        let mut budget: i128 = i128::MAX - c.carbon_amount;
        let mut k: usize = 0;
        while k < purchases.len()
            invariant
                k <= purchases@.len(),
                ps == purchases@,
                f == carbon_reserved_from(c.id),
                0 <= c.carbon_amount,
                forall|j: int| 0 <= j < ps.len() ==> f(#[trigger] ps[j]) >= 0,
                0 <= budget,
                budget == i128::MAX - c.carbon_amount - sum_of(ps.take(k as int), f),
            decreases purchases@.len() - k,
        {
            let p = &purchases[k];
            proof {
                lemma_sum_take_next(ps, k as int, f);
                lemma_sum_prefix_le(ps, k + 1, f);
            }
            if p.credit_id == c.id && (p.status == PurchaseStatus::Pending || p.status
                == PurchaseStatus::Disputed) {
                if p.amount_purchased > budget {
                    return false;
                }
                budget = budget - p.amount_purchased;
            }
            k = k + 1;
        }
        proof {
            assert(ps.take(ps.len() as int) =~= ps);
        }
        true
    }

    /// Rebuilds a contract from the parts that ledger storage holds; `None`
    /// exactly when they do not form a well formed state.
    pub fn from_parts(
        admin: Option<AccountId>,
        token: Option<AccountId>,
        credits: Vec<Credit>,
        purchases: Vec<Purchase>,
    ) -> (r: Option<CarbonMarketplace>)
        ensures
            r is Some <==> (MarketState {
                admin,
                token,
                credits: credits@,
                purchases: purchases@,
            }).wf(),
            r matches Some(m) ==> m@ == (MarketState {
                admin,
                token,
                credits: credits@,
                purchases: purchases@,
            }),
    {
        let ghost s = MarketState { admin, token, credits: credits@, purchases: purchases@ };
        proof {
            assert(credits@.len() == credits.len());
            assert(purchases@.len() == purchases.len());
        }
        if admin.is_some() != token.is_some() {
            return None;
        }
        if admin.is_none() && (credits.len() > 0 || purchases.len() > 0) {
            return None;
        }
        let n = credits.len();
        let mut j: usize = 0;
        while j < purchases.len()
            invariant
                j <= purchases@.len(),
                n == credits@.len(),
                forall|k: int| 0 <= k < j ==> purchase_wf(#[trigger] purchases@[k], k, n as nat),
            decreases purchases@.len() - j,
        {
            let p = &purchases[j];
            if !(p.id == j as u64 + 1 && 1 <= p.credit_id && p.credit_id <= n as u64
                && p.amount_purchased > 0 && p.locked_funds > 0) {
                proof {
                    assert(!purchase_wf(purchases@[j as int], j as int, n as nat));
                }
                return None;
            }
            j = j + 1;
        }
        let mut i: usize = 0;
        while i < n
            invariant
                i <= n,
                n == credits@.len(),
                forall|k: int|
                    0 <= k < purchases@.len() ==> purchase_wf(
                        #[trigger] purchases@[k],
                        k,
                        n as nat,
                    ),
                forall|k: int| 0 <= k < i ==> credit_wf(#[trigger] credits@[k], k, purchases@),
            decreases n - i,
        {
            if !Self::credit_fits(&credits[i], i, &purchases, n) {
                proof {
                    assert(!credit_wf(credits@[i as int], i as int, purchases@));
                }
                return None;
            }
            i = i + 1;
        }
        let m = CarbonMarketplace { admin, token, credits, purchases };
        proof {
            assert(m@ == s);
        }
        Some(m)
    }

    /// The admin, once set.
    pub fn admin(&self) -> (r: Option<AccountId>)
        ensures
            r == self@.admin,
    {
        match &self.admin {
            Some(a) => Some(a.clone()),
            None => None,
        }
    }

    /// The payment token, once set.
    pub fn token(&self) -> (r: Option<AccountId>)
        ensures
            r == self@.token,
    {
        match &self.token {
            Some(t) => Some(t.clone()),
            None => None,
        }
    }

    /// How many credits have been issued; they have the ids `1..=credit_count`.
    pub fn credit_count(&self) -> (r: u64)
        ensures
            r == self@.credits.len(),
    {
        self.credits.len() as u64
    }

    /// How many purchases have been made; they have the ids `1..=purchase_count`.
    pub fn purchase_count(&self) -> (r: u64)
        ensures
            r == self@.purchases.len(),
    {
        self.purchases.len() as u64
    }
}

} // verus!
