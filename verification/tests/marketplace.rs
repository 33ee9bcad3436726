use std::collections::HashMap;

use carbon_marketplace::market::CarbonMarketplace;
use carbon_marketplace::model::LOCK_PERIOD;
use carbon_marketplace::types::{
    AccountId, Event, Holder, MarketError, Outcome, PurchaseStatus, VerificationStatus,
};

fn id(key: &str) -> AccountId {
    AccountId::new(key.to_string())
}

/// The contract together with a payment token's balances, as the host would
/// hold them: every transfer that the contract orders is applied here.
struct Env {
    market: CarbonMarketplace,
    token: AccountId,
    balances: HashMap<String, i128>,
    escrow: i128,
    now: u64,
}

impl Env {
    fn mint(&mut self, to: &AccountId, amount: i128) {
        *self.balances.entry(to.key.clone()).or_insert(0) += amount;
    }

    fn balance(&self, who: &AccountId) -> i128 {
        *self.balances.get(&who.key).unwrap_or(&0)
    }

    /// Applies an accepted call's transfer and returns its value; aborts with
    /// the contract's message when the call was rejected.
    fn run<T>(&mut self, r: Result<Outcome<T>, MarketError>) -> T {
        match r {
            Ok(o) => {
                if let Some(t) = o.transfer {
                    assert_eq!(t.token, self.token);
                    match t.from {
                        Holder::Escrow => {
                            assert!(self.escrow >= t.amount, "escrow overdrawn");
                            self.escrow -= t.amount;
                        }
                        Holder::Account(a) => {
                            let b = self.balances.entry(a.key.clone()).or_insert(0);
                            assert!(*b >= t.amount, "balance is not sufficient to spend");
                            *b -= t.amount;
                        }
                    }
                    match t.to {
                        Holder::Escrow => self.escrow += t.amount,
                        Holder::Account(a) => {
                            *self.balances.entry(a.key.clone()).or_insert(0) += t.amount
                        }
                    }
                }
                o.value
            }
            Err(e) => panic!("{}", e.message()),
        }
    }
}

fn setup_test() -> (Env, AccountId) {
    let token = id("CTOKEN");
    let admin = id("GADMIN");
    let mut market = CarbonMarketplace::new();
    market.init(admin.clone(), token.clone()).unwrap();
    let env = Env { market, token, balances: HashMap::new(), escrow: 0, now: 0 };
    (env, admin)
}

/// Total tons held by credits and reserved by open purchases.
fn total_carbon(m: &CarbonMarketplace) -> i128 {
    let mut total = 0;
    for i in 1..=m.credit_count() {
        total += m.get_credit(i).unwrap().carbon_amount;
    }
    for j in 1..=m.purchase_count() {
        let p = m.get_purchase(j).unwrap();
        if p.status == PurchaseStatus::Pending || p.status == PurchaseStatus::Disputed {
            total += p.amount_purchased;
        }
    }
    total
}

/// Funds that open purchases lock in escrow.
fn locked_in_escrow(m: &CarbonMarketplace) -> i128 {
    let mut total = 0;
    for j in 1..=m.purchase_count() {
        let p = m.get_purchase(j).unwrap();
        if p.status == PurchaseStatus::Pending || p.status == PurchaseStatus::Disputed {
            total += p.locked_funds;
        }
    }
    total
}

/// A verified credit of `tons` listed at `price`; returns the creator and the credit id.
fn listed_credit(env: &mut Env, admin: &AccountId, tons: i128, price: i128) -> (AccountId, u64) {
    let creator = id("GCREATOR");
    let now = env.now;
    let r = env.market.create_credit(creator.clone(), "Project".to_string(), tons, now);
    let credit_id = env.run(r);
    let r = env.market.verify_credit(admin.clone(), credit_id, VerificationStatus::Verified);
    env.run(r);
    let r = env.market.list_credit(creator.clone(), credit_id, price);
    env.run(r);
    (creator, credit_id)
}

#[test]
fn test_fractional_purchase_and_escrow() {
    let (mut env, admin) = setup_test();
    let creator = id("GCREATOR");
    let buyer = id("GBUYER");

    env.mint(&buyer, 10_000);
    assert_eq!(env.balance(&buyer), 10_000);

    let r = env.market.create_credit(creator.clone(), "Amazon Reforestation".to_string(), 100, 0);
    let credit_id = env.run(r);

    let r = env.market.verify_credit(admin.clone(), credit_id, VerificationStatus::Verified);
    env.run(r);

    let price_per_ton = 50;
    let r = env.market.list_credit(creator.clone(), credit_id, price_per_ton);
    env.run(r);

    let amount_to_buy = 10;
    let r = env.market.buy_credit(buyer.clone(), credit_id, amount_to_buy, 0);
    let purchase_id = env.run(r);

    assert_eq!(env.balance(&buyer), 9_500);
    assert_eq!(env.escrow, 500);
    assert_eq!(env.balance(&creator), 0);

    let parent_credit = env.market.get_credit(credit_id).unwrap();
    assert_eq!(parent_credit.carbon_amount, 90);

    let r = env.market.confirm_delivery(buyer.clone(), purchase_id, 0);
    let fractional_credit_id = env.run(r);

    assert_eq!(env.escrow, 0);
    assert_eq!(env.balance(&creator), 500);

    let new_credit = env.market.get_credit(fractional_credit_id).unwrap();
    assert_eq!(new_credit.owner_address, buyer);
    assert_eq!(new_credit.carbon_amount, 10);
    assert_eq!(new_credit.project_name, "Amazon Reforestation".to_string());
}

#[test]
#[should_panic(expected = "Credit not verified")]
fn test_cannot_list_unverified() {
    let (mut env, _admin) = setup_test();
    let creator = id("GCREATOR");

    let r = env.market.create_credit(creator.clone(), "Fake Project".to_string(), 100, 0);
    let credit_id = env.run(r);

    let r = env.market.list_credit(creator.clone(), credit_id, 50);
    env.run(r);
}

#[test]
#[should_panic(expected = "Deadline has not expired yet")]
fn test_cannot_cancel_before_deadline() {
    let (mut env, admin) = setup_test();
    let creator = id("GCREATOR");
    let buyer = id("GBUYER");

    env.mint(&buyer, 10_000);
    let r = env.market.create_credit(creator.clone(), "Wind Project".to_string(), 100, 0);
    let credit_id = env.run(r);
    let r = env.market.verify_credit(admin.clone(), credit_id, VerificationStatus::Verified);
    env.run(r);
    let r = env.market.list_credit(creator.clone(), credit_id, 50);
    env.run(r);

    let r = env.market.buy_credit(buyer.clone(), credit_id, 10, 0);
    let purchase_id = env.run(r);

    let r = env.market.cancel_purchase(creator.clone(), purchase_id, 0);
    env.run(r);
}

#[test]
fn test_admin_dispute_resolution() {
    let (mut env, admin) = setup_test();
    let creator = id("GCREATOR");
    let buyer = id("GBUYER");

    env.mint(&buyer, 10_000);
    let r = env.market.create_credit(creator.clone(), "Solar Project".to_string(), 100, 0);
    let credit_id = env.run(r);
    let r = env.market.verify_credit(admin.clone(), credit_id, VerificationStatus::Verified);
    env.run(r);
    let r = env.market.list_credit(creator.clone(), credit_id, 50);
    env.run(r);

    let r = env.market.buy_credit(buyer.clone(), credit_id, 20, 0);
    let purchase_id = env.run(r);

    let r = env.market.mark_disputed(buyer.clone(), purchase_id);
    env.run(r);

    let r = env.market.resolve_dispute(admin.clone(), purchase_id, true, 0);
    env.run(r);

    assert_eq!(env.balance(&buyer), 10_000);
    assert_eq!(env.escrow, 0);
    assert_eq!(env.balance(&creator), 0);

    let parent = env.market.get_credit(credit_id).unwrap();
    assert_eq!(parent.carbon_amount, 100);
}

#[test]
#[should_panic(expected = "Insufficient carbon amount available")]
fn test_buy_insufficient_credits() {
    let (mut env, admin) = setup_test();
    let creator = id("GCREATOR");
    let buyer = id("GBUYER");

    env.mint(&buyer, 10_000);
    let r = env.market.create_credit(creator.clone(), "Forest Project".to_string(), 50, 0);
    let credit_id = env.run(r);
    let r = env.market.verify_credit(admin.clone(), credit_id, VerificationStatus::Verified);
    env.run(r);
    let r = env.market.list_credit(creator.clone(), credit_id, 50);
    env.run(r);

    let r = env.market.buy_credit(buyer.clone(), credit_id, 100, 0);
    env.run(r);
}

#[test]
#[should_panic(expected = "Only admin can verify")]
fn test_unauthorized_access() {
    let (mut env, _admin) = setup_test();
    let creator = id("GCREATOR");
    let malicious_user = id("GMALICIOUS");

    let r = env.market.create_credit(creator.clone(), "Ocean Project".to_string(), 100, 0);
    let credit_id = env.run(r);

    let r = env.market.verify_credit(malicious_user.clone(), credit_id, VerificationStatus::Verified);
    env.run(r);
}

#[test]
fn purchase_records_price_and_deadline() {
    let (mut env, admin) = setup_test();
    env.now = 1_000;
    let (creator, credit_id) = listed_credit(&mut env, &admin, 40, 13);
    let buyer = id("GBUYER");
    env.mint(&buyer, 1_000);
    let r = env.market.buy_credit(buyer.clone(), credit_id, 7, 1_000).unwrap();
    assert_eq!(r.value, 1);
    let t = r.transfer.unwrap();
    assert_eq!(t.amount, 91);
    assert_eq!(t.from, Holder::Account(buyer.clone()));
    assert_eq!(t.to, Holder::Escrow);
    assert_eq!(r.event, Some(Event::Purchased { credit_id, buyer: buyer.clone() }));
    let p = env.market.get_purchase(1).unwrap();
    assert_eq!(p.locked_funds, 91);
    assert_eq!(p.deadline, 1_000 + LOCK_PERIOD);
    assert_eq!(p.deadline, 605_800);
    assert_eq!(p.seller, creator);
    assert_eq!(p.status, PurchaseStatus::Pending);
    assert_eq!(env.market.get_credit(credit_id).unwrap().carbon_amount, 33);
}

#[test]
fn buying_the_last_tons_unlists_the_credit() {
    let (mut env, admin) = setup_test();
    let (creator, credit_id) = listed_credit(&mut env, &admin, 5, 2);
    let buyer = id("GBUYER");
    env.mint(&buyer, 100);
    let r = env.market.buy_credit(buyer.clone(), credit_id, 5, 0);
    env.run(r);
    let c = env.market.get_credit(credit_id).unwrap();
    assert_eq!(c.carbon_amount, 0);
    assert!(!c.is_listed);
    assert_eq!(
        env.market.buy_credit(buyer.clone(), credit_id, 1, 0).unwrap_err(),
        MarketError::CreditNotListed
    );
    assert_eq!(
        env.market.list_credit(creator.clone(), credit_id, 2).unwrap_err(),
        MarketError::NoCarbonToList
    );
}

#[test]
fn carbon_and_escrow_books_balance_through_a_session() {
    let (mut env, admin) = setup_test();
    let (creator, credit_id) = listed_credit(&mut env, &admin, 100, 10);
    let buyer = id("GBUYER");
    let other = id("GOTHER");
    env.mint(&buyer, 10_000);
    env.mint(&other, 10_000);
    assert_eq!(total_carbon(&env.market), 100);

    let r = env.market.buy_credit(buyer.clone(), credit_id, 30, 0);
    let p1 = env.run(r);
    let r = env.market.buy_credit(other.clone(), credit_id, 20, 0);
    let p2 = env.run(r);
    let r = env.market.buy_credit(buyer.clone(), credit_id, 5, 0);
    let p3 = env.run(r);
    assert_eq!(total_carbon(&env.market), 100);
    assert_eq!(env.escrow, locked_in_escrow(&env.market));
    assert_eq!(env.escrow, 550);

    let r = env.market.confirm_delivery(buyer.clone(), p1, 1);
    env.run(r);
    let r = env.market.mark_disputed(other.clone(), p2);
    env.run(r);
    let r = env.market.resolve_dispute(admin.clone(), p2, false, 2);
    env.run(r);
    let r = env.market.cancel_purchase(creator.clone(), p3, LOCK_PERIOD + 1);
    env.run(r);
    assert_eq!(total_carbon(&env.market), 100);
    assert_eq!(env.escrow, locked_in_escrow(&env.market));
    assert_eq!(env.escrow, 0);
    assert_eq!(env.balance(&creator), 500);
    assert_eq!(env.balance(&buyer), 9_700);
    assert_eq!(env.balance(&other), 9_800);
    assert_eq!(env.market.get_credit(credit_id).unwrap().carbon_amount, 50);
    assert_eq!(env.market.credit_count(), 3);
    let minted = env.market.get_credit(3).unwrap();
    assert_eq!(minted.owner_address, other);
    assert_eq!(minted.carbon_amount, 20);
    assert_eq!(minted.creator_address, creator);
    assert_eq!(minted.verification_status, VerificationStatus::Verified);
    assert_eq!(env.market.get_purchase(p1).unwrap().status, PurchaseStatus::Confirmed);
    assert_eq!(env.market.get_purchase(p2).unwrap().status, PurchaseStatus::Resolved);
    assert_eq!(env.market.get_purchase(p3).unwrap().status, PurchaseStatus::Cancelled);

    let r = env.market.create_credit(creator.clone(), "More".to_string(), 7, 3);
    env.run(r);
    assert_eq!(total_carbon(&env.market), 107);
}

#[test]
fn rejected_calls_change_nothing() {
    let (mut env, admin) = setup_test();
    let (creator, credit_id) = listed_credit(&mut env, &admin, 10, 3);
    let before = env.market.get_credit(credit_id).unwrap();
    assert!(env.market.buy_credit(creator.clone(), credit_id, 1, 0).is_err());
    assert!(env.market.list_credit(id("GNOBODY"), credit_id, 9).is_err());
    assert_eq!(env.market.get_credit(credit_id).unwrap(), before);
    assert_eq!(env.market.purchase_count(), 0);
}

#[test]
fn init_and_upgrade_rules() {
    let mut market = CarbonMarketplace::new();
    let admin = id("GADMIN");
    assert_eq!(market.upgrade(admin.clone()).unwrap_err(), MarketError::NotInitialized);
    assert_eq!(
        market.create_credit(admin.clone(), "X".to_string(), 1, 0).unwrap_err(),
        MarketError::NotInitialized
    );
    assert_eq!(
        market.verify_credit(admin.clone(), 1, VerificationStatus::Verified).unwrap_err(),
        MarketError::NotInitialized
    );
    assert_eq!(
        market.resolve_dispute(admin.clone(), 1, true, 0).unwrap_err(),
        MarketError::NotInitialized
    );
    assert!(market.admin().is_none());
    market.init(admin.clone(), id("CTOKEN")).unwrap();
    assert_eq!(market.admin(), Some(admin.clone()));
    assert_eq!(market.token(), Some(id("CTOKEN")));
    assert_eq!(
        market.init(id("GOTHER"), id("COTHER")).unwrap_err(),
        MarketError::AlreadyInitialized
    );
    assert_eq!(market.admin(), Some(admin.clone()));
    assert!(market.upgrade(admin.clone()).is_ok());
    assert_eq!(market.upgrade(id("GOTHER")).unwrap_err(), MarketError::OnlyAdminCanUpgrade);
}

#[test]
fn create_and_verify_rejections() {
    let (mut env, admin) = setup_test();
    let creator = id("GCREATOR");
    assert_eq!(
        env.market.create_credit(creator.clone(), "X".to_string(), 0, 0).unwrap_err(),
        MarketError::NonPositiveCarbonAmount
    );
    assert_eq!(
        env.market.create_credit(creator.clone(), "X".to_string(), -5, 0).unwrap_err(),
        MarketError::NonPositiveCarbonAmount
    );
    let r = env.market.create_credit(creator.clone(), "X".to_string(), 5, 42).unwrap();
    assert_eq!(r.value, 1);
    assert_eq!(r.event, Some(Event::Created { credit_id: 1, creator: creator.clone() }));
    let c = env.market.get_credit(1).unwrap();
    assert_eq!(c.id, 1);
    assert_eq!(c.owner_address, creator);
    assert_eq!(c.creator_address, creator);
    assert_eq!(c.verification_status, VerificationStatus::Pending);
    assert!(!c.is_listed);
    assert_eq!(c.price_per_ton, 0);
    assert_eq!(c.timestamp, 42);
    assert_eq!(
        env.market.verify_credit(admin.clone(), 2, VerificationStatus::Verified).unwrap_err(),
        MarketError::CreditNotFound
    );
    assert_eq!(
        env.market.verify_credit(admin.clone(), 0, VerificationStatus::Verified).unwrap_err(),
        MarketError::CreditNotFound
    );
    let r = env.market.verify_credit(admin.clone(), 1, VerificationStatus::Rejected).unwrap();
    assert_eq!(
        r.event,
        Some(Event::Verified { credit_id: 1, status: VerificationStatus::Rejected })
    );
    assert_eq!(env.market.get_credit(1).unwrap().verification_status, VerificationStatus::Rejected);
    assert_eq!(env.market.get_credit(9).unwrap_err(), MarketError::CreditNotFound);
    assert_eq!(env.market.get_purchase(1).unwrap_err(), MarketError::PurchaseNotFound);
}

#[test]
fn list_and_unlist_rejections() {
    let (mut env, admin) = setup_test();
    let creator = id("GCREATOR");
    let r = env.market.create_credit(creator.clone(), "X".to_string(), 5, 0);
    env.run(r);
    assert_eq!(
        env.market.list_credit(creator.clone(), 1, 0).unwrap_err(),
        MarketError::NonPositivePrice
    );
    assert_eq!(
        env.market.list_credit(creator.clone(), 2, 5).unwrap_err(),
        MarketError::CreditNotFound
    );
    assert_eq!(
        env.market.list_credit(id("GOTHER"), 1, 5).unwrap_err(),
        MarketError::OnlyOwnerCanList
    );
    let r = env.market.verify_credit(admin.clone(), 1, VerificationStatus::Verified);
    env.run(r);
    let r = env.market.list_credit(creator.clone(), 1, 5).unwrap();
    assert_eq!(r.event, Some(Event::Listed { credit_id: 1, price_per_ton: 5 }));
    assert!(env.market.get_credit(1).unwrap().is_listed);
    assert_eq!(
        env.market.unlist_credit(creator.clone(), 3).unwrap_err(),
        MarketError::CreditNotFound
    );
    assert_eq!(
        env.market.unlist_credit(id("GOTHER"), 1).unwrap_err(),
        MarketError::OnlyOwnerCanUnlist
    );
    let r = env.market.unlist_credit(creator.clone(), 1).unwrap();
    assert_eq!(r.event, Some(Event::Unlisted { credit_id: 1, owner: creator.clone() }));
    assert!(!env.market.get_credit(1).unwrap().is_listed);
    assert_eq!(
        env.market.buy_credit(id("GBUYER"), 1, 1, 0).unwrap_err(),
        MarketError::CreditNotListed
    );
}

#[test]
fn buy_rejections() {
    let (mut env, admin) = setup_test();
    let (creator, credit_id) = listed_credit(&mut env, &admin, 10, i128::MAX / 2);
    let buyer = id("GBUYER");
    assert_eq!(
        env.market.buy_credit(buyer.clone(), credit_id, 0, 0).unwrap_err(),
        MarketError::NonPositivePurchase
    );
    assert_eq!(
        env.market.buy_credit(buyer.clone(), 7, 1, 0).unwrap_err(),
        MarketError::CreditNotFound
    );
    assert_eq!(
        env.market.buy_credit(creator.clone(), credit_id, 1, 0).unwrap_err(),
        MarketError::OwnerCannotBuy
    );
    assert_eq!(
        env.market.buy_credit(buyer.clone(), credit_id, 11, 0).unwrap_err(),
        MarketError::InsufficientCarbon
    );
    assert_eq!(
        env.market.buy_credit(buyer.clone(), credit_id, 3, 0).unwrap_err(),
        MarketError::PriceOverflow
    );
    assert!(env.market.buy_credit(buyer.clone(), credit_id, 2, 0).is_ok());
    let (_, cheap) = listed_credit(&mut env, &admin, 10, 1);
    assert_eq!(
        env.market.buy_credit(buyer.clone(), cheap, 1, u64::MAX - 10).unwrap_err(),
        MarketError::DeadlineOverflow
    );
    assert!(env.market.buy_credit(buyer.clone(), cheap, 1, u64::MAX - LOCK_PERIOD).is_ok());
}

#[test]
fn confirm_cancel_dispute_rejections() {
    let (mut env, admin) = setup_test();
    let (creator, credit_id) = listed_credit(&mut env, &admin, 10, 2);
    let buyer = id("GBUYER");
    let stranger = id("GSTRANGER");
    env.mint(&buyer, 100);
    let r = env.market.buy_credit(buyer.clone(), credit_id, 4, 100);
    let pid = env.run(r);

    assert_eq!(
        env.market.confirm_delivery(buyer.clone(), 9, 0).unwrap_err(),
        MarketError::PurchaseNotFound
    );
    assert_eq!(
        env.market.confirm_delivery(creator.clone(), pid, 0).unwrap_err(),
        MarketError::OnlyBuyerCanConfirm
    );
    assert_eq!(
        env.market.cancel_purchase(buyer.clone(), 9, 0).unwrap_err(),
        MarketError::PurchaseNotFound
    );
    assert_eq!(
        env.market.cancel_purchase(stranger.clone(), pid, u64::MAX).unwrap_err(),
        MarketError::OnlyPartiesCanCancel
    );
    assert_eq!(
        env.market.cancel_purchase(buyer.clone(), pid, 100 + LOCK_PERIOD).unwrap_err(),
        MarketError::DeadlineNotExpired
    );
    assert_eq!(
        env.market.mark_disputed(buyer.clone(), 9).unwrap_err(),
        MarketError::PurchaseNotFound
    );
    assert_eq!(
        env.market.mark_disputed(stranger.clone(), pid).unwrap_err(),
        MarketError::NotInvolved
    );
    assert_eq!(
        env.market.resolve_dispute(stranger.clone(), pid, true, 0).unwrap_err(),
        MarketError::OnlyAdminCanResolve
    );
    assert_eq!(
        env.market.resolve_dispute(admin.clone(), 9, true, 0).unwrap_err(),
        MarketError::PurchaseNotFound
    );

    let r = env.market.mark_disputed(creator.clone(), pid);
    env.run(r);
    assert_eq!(
        env.market.mark_disputed(buyer.clone(), pid).unwrap_err(),
        MarketError::CannotDispute
    );
    assert_eq!(
        env.market.confirm_delivery(buyer.clone(), pid, 0).unwrap_err(),
        MarketError::NotPending
    );
    assert_eq!(
        env.market.cancel_purchase(buyer.clone(), pid, u64::MAX).unwrap_err(),
        MarketError::NotPending
    );
    let r = env.market.resolve_dispute(admin.clone(), pid, false, 5).unwrap();
    assert_eq!(r.event, Some(Event::Resolved { purchase_id: pid, refund_buyer: false }));
    let t = r.transfer.unwrap();
    assert_eq!(t.from, Holder::Escrow);
    assert_eq!(t.to, Holder::Account(creator.clone()));
    assert_eq!(t.amount, 8);
    assert_eq!(
        env.market.resolve_dispute(admin.clone(), pid, true, 0).unwrap_err(),
        MarketError::NotDisputable
    );
}

#[test]
fn cancel_after_deadline_refunds_buyer() {
    let (mut env, admin) = setup_test();
    let (creator, credit_id) = listed_credit(&mut env, &admin, 10, 2);
    let buyer = id("GBUYER");
    env.mint(&buyer, 100);
    let r = env.market.buy_credit(buyer.clone(), credit_id, 4, 100);
    let pid = env.run(r);
    assert_eq!(env.balance(&buyer), 92);
    let r = env.market.cancel_purchase(creator.clone(), pid, 101 + LOCK_PERIOD).unwrap();
    assert_eq!(r.event, Some(Event::Cancelled { purchase_id: pid, caller: creator.clone() }));
    env.run(Ok(r));
    assert_eq!(env.balance(&buyer), 100);
    assert_eq!(env.escrow, 0);
    let c = env.market.get_credit(credit_id).unwrap();
    assert_eq!(c.carbon_amount, 10);
    assert!(c.is_listed);
    assert_eq!(env.market.get_purchase(pid).unwrap().status, PurchaseStatus::Cancelled);
}

#[test]
fn confirm_mints_a_credit_for_the_buyer() {
    let (mut env, admin) = setup_test();
    let (_creator, credit_id) = listed_credit(&mut env, &admin, 10, 2);
    let buyer = id("GBUYER");
    env.mint(&buyer, 100);
    let r = env.market.buy_credit(buyer.clone(), credit_id, 4, 0);
    let pid = env.run(r);
    let r = env.market.confirm_delivery(buyer.clone(), pid, 77).unwrap();
    assert_eq!(r.value, 2);
    assert_eq!(r.event, Some(Event::Released { purchase_id: pid, credit_id: 2 }));
    let c = env.market.get_credit(2).unwrap();
    assert_eq!(c.id, 2);
    assert_eq!(c.project_name, "Project".to_string());
    assert_eq!(c.timestamp, 77);
    assert!(!c.is_listed);
    assert_eq!(c.price_per_ton, 0);
}

#[test]
fn stored_parts_round_trip() {
    let (mut env, admin) = setup_test();
    let (_creator, credit_id) = listed_credit(&mut env, &admin, 10, 2);
    let buyer = id("GBUYER");
    env.mint(&buyer, 100);
    let r = env.market.buy_credit(buyer.clone(), credit_id, 4, 0);
    env.run(r);
    let credits: Vec<_> = (1..=env.market.credit_count())
        .map(|i| env.market.get_credit(i).unwrap())
        .collect();
    let purchases: Vec<_> = (1..=env.market.purchase_count())
        .map(|j| env.market.get_purchase(j).unwrap())
        .collect();
    let restored = CarbonMarketplace::from_parts(
        env.market.admin(),
        env.market.token(),
        credits.clone(),
        purchases.clone(),
    )
    .unwrap();
    assert_eq!(restored.get_credit(1).unwrap(), credits[0]);
    assert_eq!(restored.get_purchase(1).unwrap(), purchases[0]);

    let mut bad_id = credits.clone();
    bad_id[0].id = 5;
    assert!(CarbonMarketplace::from_parts(
        env.market.admin(),
        env.market.token(),
        bad_id,
        purchases.clone()
    )
    .is_none());

    let mut too_full = credits.clone();
    too_full[0].carbon_amount = i128::MAX - 3;
    assert!(CarbonMarketplace::from_parts(
        env.market.admin(),
        env.market.token(),
        too_full,
        purchases.clone()
    )
    .is_none());

    let mut dangling = purchases.clone();
    dangling[0].credit_id = 2;
    assert!(CarbonMarketplace::from_parts(
        env.market.admin(),
        env.market.token(),
        credits.clone(),
        dangling
    )
    .is_none());

    assert!(CarbonMarketplace::from_parts(None, None, credits.clone(), Vec::new()).is_none());
    assert!(CarbonMarketplace::from_parts(env.market.admin(), None, Vec::new(), Vec::new())
        .is_none());
}

#[test]
fn account_ids_compare_by_address() {
    assert_eq!(id("GA"), id("GA"));
    assert_ne!(id("GA"), id("GB"));
    assert_eq!(MarketError::CreditNotVerified.message(), "Credit not verified");
    assert_eq!(MarketError::PriceOverflow.message(), "Price overflow");
}
