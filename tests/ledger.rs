use gift_cards::error::AppError;
use gift_cards::ledger::{accept, issue, redeem, CardLedger, LedgerError, SECONDS_PER_DAY};
use gift_cards::model::{CreateGiftCardDto, GiftCard};
use gift_cards::service::{accept_gift_card, issue_gift_card, pagination, redeem_gift_card, Pagination};

const NOW: i64 = 1_700_000_000;

fn request(balance: i32, days: i32) -> CreateGiftCardDto {
    CreateGiftCardDto {
        issuer_name: "Alice".to_string(),
        recipient_name: "Bob".to_string(),
        recipient_phone: "5551234567".to_string(),
        balance,
        expiration_days: days,
    }
}

fn accepted_card(balance: i32) -> GiftCard {
    let mut card = issue(request(balance, 30), 7, NOW).unwrap();
    accept(&mut card, &"5551234567".to_string(), NOW + 1).unwrap();
    card
}

#[test]
fn issued_card_starts_full_and_unaccepted() {
    let card = issue(request(5000, 30), 42, NOW).unwrap();
    assert_eq!(card.id, 42);
    assert_eq!(card.balance, 5000);
    assert_eq!(card.initial_balance, 5000);
    assert!(!card.is_accepted);
    assert!(card.is_active);
    assert_eq!(card.expiration_date, NOW + 30 * SECONDS_PER_DAY);
    assert_eq!(card.created_at, NOW);
    assert_eq!(card.recipient_phone, "5551234567");
}

#[test]
fn issue_rejects_bad_requests() {
    assert_eq!(issue(request(0, 30), 1, NOW).unwrap_err(), LedgerError::NonPositiveBalance);
    assert_eq!(issue(request(-5, 0), 1, NOW).unwrap_err(), LedgerError::NonPositiveBalance);
    assert_eq!(issue(request(10, 0), 1, NOW).unwrap_err(), LedgerError::NonPositiveExpiration);
    assert_eq!(
        issue(request(10, 1), 1, i64::MAX - 10).unwrap_err(),
        LedgerError::ExpirationOutOfRange
    );
}

#[test]
fn issue_with_fresh_id_and_time() {
    let card = issue_gift_card(request(2500, 10)).unwrap();
    assert_eq!(card.balance, 2500);
    assert_eq!(card.initial_balance, 2500);
    assert!(!card.is_accepted);
    assert_eq!(card.expiration_date, card.created_at + 10 * SECONDS_PER_DAY);
    let other = issue_gift_card(request(2500, 10)).unwrap();
    assert_ne!(card.id, other.id);
    assert_eq!(issue_gift_card(request(0, 10)).unwrap_err(), LedgerError::NonPositiveBalance);
}

#[test]
fn full_lifecycle_scenario() {
    let mut ledger = CardLedger::open(request(5000, 30), 99, NOW).unwrap();
    ledger.accept(&"5551234567".to_string(), NOW + 10).unwrap();
    assert!(ledger.card.is_accepted);
    ledger.redeem(2000, "Merchant A".to_string(), 1, NOW + 20).unwrap();
    assert_eq!(ledger.card.balance, 3000);
    assert!(ledger.card.is_active);
    ledger.redeem(3000, "Merchant B".to_string(), 2, NOW + 30).unwrap();
    assert_eq!(ledger.card.balance, 0);
    assert!(!ledger.card.is_active);
    assert_eq!(ledger.transactions.len(), 2);
    assert_eq!(ledger.total_debited(), 5000);
    assert_eq!(ledger.transactions[0].merchant, "Merchant A");
    assert_eq!(ledger.transactions[1].merchant, "Merchant B");
    assert_eq!(ledger.transactions[1].gift_card_id, 99);
    let third = ledger.redeem(1, "Merchant C".to_string(), 3, NOW + 40).unwrap_err();
    assert_eq!(third, LedgerError::Inactive);
    assert!(matches!(third.to_app_error(), AppError::ValidationError(_)));
    assert_eq!(ledger.transactions.len(), 2);
    assert_eq!(ledger.card.balance, 0);
}

#[test]
fn exhausted_card_has_insufficient_balance() {
    let mut card = accepted_card(5000);
    redeem(&mut card, 2000, "Merchant A".to_string(), 1, NOW + 20).unwrap();
    redeem(&mut card, 3000, "Merchant B".to_string(), 2, NOW + 30).unwrap();
    assert_eq!(card.balance, 0);
    assert!(!card.is_active);
    card.is_active = true;
    assert_eq!(
        redeem(&mut card, 1, "Merchant C".to_string(), 3, NOW + 40).unwrap_err(),
        LedgerError::InsufficientBalance
    );
}

#[test]
fn redeem_returns_the_record() {
    let mut card = accepted_card(5000);
    let t = redeem(&mut card, 1250, "Bakery".to_string(), 77, NOW + 5).unwrap();
    assert_eq!(t.id, 77);
    assert_eq!(t.gift_card_id, 7);
    assert_eq!(t.amount, 1250);
    assert_eq!(t.merchant, "Bakery");
    assert_eq!(t.transaction_date, NOW + 5);
    assert_eq!(card.balance, 3750);
    assert_eq!(card.updated_at, NOW + 5);
}

#[test]
fn overdraft_changes_nothing() {
    let mut ledger = CardLedger::open(request(1000, 30), 5, NOW).unwrap();
    ledger.accept(&"5551234567".to_string(), NOW).unwrap();
    ledger.redeem(400, "Shop".to_string(), 1, NOW + 1).unwrap();
    let r = ledger.redeem(601, "Shop".to_string(), 2, NOW + 2);
    assert_eq!(r.unwrap_err(), LedgerError::InsufficientBalance);
    assert_eq!(ledger.card.balance, 600);
    assert_eq!(ledger.transactions.len(), 1);
}

#[test]
fn racing_redemptions_only_one_fits() {
    let base = accepted_card(1000);
    let mut first = base.clone();
    redeem(&mut first, 700, "A".to_string(), 1, NOW + 2).unwrap();
    assert_eq!(
        redeem(&mut first, 600, "B".to_string(), 2, NOW + 3).unwrap_err(),
        LedgerError::InsufficientBalance
    );
    assert_eq!(first.balance, 300);
    let mut second = base.clone();
    redeem(&mut second, 600, "B".to_string(), 2, NOW + 2).unwrap();
    assert!(redeem(&mut second, 700, "A".to_string(), 1, NOW + 3).is_err());
    assert_eq!(second.balance, 400);
}

#[test]
fn accept_checks_phone_and_once() {
    let mut card = issue(request(500, 30), 3, NOW).unwrap();
    assert_eq!(
        accept(&mut card, &"5550000000".to_string(), NOW).unwrap_err(),
        LedgerError::PhoneMismatch
    );
    assert!(!card.is_accepted);
    accept(&mut card, &"5551234567".to_string(), NOW + 1).unwrap();
    assert!(card.is_accepted);
    assert_eq!(card.updated_at, NOW + 1);
    assert_eq!(
        accept(&mut card, &"5551234567".to_string(), NOW + 2).unwrap_err(),
        LedgerError::AlreadyAccepted
    );
}

#[test]
fn accept_now_checks_phone() {
    let mut card = issue_gift_card(request(500, 30)).unwrap();
    assert_eq!(
        accept_gift_card(&mut card, &"5550000000".to_string()).unwrap_err(),
        LedgerError::PhoneMismatch
    );
    accept_gift_card(&mut card, &"5551234567".to_string()).unwrap();
    assert!(card.is_accepted);
    let t = redeem_gift_card(&mut card, 200, "Cafe".to_string()).unwrap();
    assert_eq!(t.amount, 200);
    assert_eq!(card.balance, 300);
}

#[test]
fn expired_card_cannot_be_accepted_or_redeemed() {
    let mut card = issue(request(500, 1), 3, NOW).unwrap();
    let later = NOW + 2 * SECONDS_PER_DAY;
    assert_eq!(
        accept(&mut card, &"5551234567".to_string(), later).unwrap_err(),
        LedgerError::Expired
    );
    let mut live = accepted_card(5000);
    let after = live.expiration_date + 1;
    assert_eq!(
        redeem(&mut live, 10, "Shop".to_string(), 1, after).unwrap_err(),
        LedgerError::Expired
    );
    assert_eq!(live.balance, 5000);
}

#[test]
fn redeem_check_order() {
    let mut fresh = issue(request(500, 30), 3, NOW).unwrap();
    assert_eq!(
        redeem(&mut fresh, 10, "Shop".to_string(), 1, NOW).unwrap_err(),
        LedgerError::NotAccepted
    );
    let mut card = accepted_card(500);
    assert_eq!(
        redeem(&mut card, 0, "Shop".to_string(), 1, NOW).unwrap_err(),
        LedgerError::NonPositiveAmount
    );
    assert_eq!(
        redeem(&mut card, -5, "Shop".to_string(), 1, NOW).unwrap_err(),
        LedgerError::NonPositiveAmount
    );
    card.is_active = false;
    assert_eq!(
        redeem(&mut card, 10, "Shop".to_string(), 1, NOW).unwrap_err(),
        LedgerError::Inactive
    );
}

#[test]
fn pagination_windows() {
    assert_eq!(pagination(None, None), Some(Pagination { limit: 10, offset: 0 }));
    assert_eq!(pagination(Some(3), Some(20)), Some(Pagination { limit: 20, offset: 40 }));
    assert_eq!(pagination(Some(0), Some(20)), None);
    assert_eq!(
        pagination(Some(u32::MAX), Some(u32::MAX)),
        Some(Pagination { limit: u32::MAX as u64, offset: (u32::MAX as u64 - 1) * u32::MAX as u64 })
    );
}

#[test]
fn balance_tracks_the_log() {
    let mut ledger = CardLedger::open(request(1000, 30), 11, NOW).unwrap();
    ledger.accept(&"5551234567".to_string(), NOW).unwrap();
    let mut last = ledger.card.balance;
    for (k, amount) in [300, 0, 250, 900, 450, 1, 5].iter().enumerate() {
        let _ = ledger.redeem(*amount, "Shop".to_string(), k as u128, NOW + 1 + k as i64);
        assert!(ledger.card.balance <= last);
        assert_eq!(ledger.card.balance as i64, ledger.card.initial_balance as i64 - ledger.total_debited());
        last = ledger.card.balance;
    }
    assert_eq!(ledger.card.balance, 0);
    assert_eq!(ledger.transactions.len(), 3);
    assert!(!ledger.card.is_active);
}

#[test]
fn accept_allowed_in_expiration_second() {
    let mut card = issue(request(500, 1), 3, NOW).unwrap();
    let last = card.expiration_date;
    accept(&mut card, &"5551234567".to_string(), last).unwrap();
    assert!(card.is_accepted);
    assert_eq!(
        redeem(&mut card, 10, "Shop".to_string(), 1, last).unwrap_err(),
        LedgerError::Expired
    );
    let mut late = issue(request(500, 1), 4, NOW).unwrap();
    assert_eq!(
        accept(&mut late, &"5551234567".to_string(), last + 1).unwrap_err(),
        LedgerError::Expired
    );
}
