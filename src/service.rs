use vstd::prelude::*;
use crate::ledger::{
    accept, accept_check, accepted, debited, issue, redeem, redeem_check, LedgerError,
};
use crate::model::{CreateGiftCardDto, GiftCard, GiftCardTransaction};
use crate::trusted::{fresh_uuid, now_seconds};

verus! {

/// The page shown when a listing names none.
pub const DEFAULT_PAGE: u32 = 1;

/// The page size used when a listing names none.
pub const DEFAULT_PER_PAGE: u32 = 10;

/// Which rows of a listing to return: at most `limit`, after skipping
/// `offset`.
#[derive(Debug, Clone, Copy, PartialEq, Eq, Structural)]
pub struct Pagination {
    pub limit: u64,
    pub offset: u64,
}

/// The window of a listing for a one-based page number; `None` for page 0.
pub fn pagination(page: Option<u32>, per_page: Option<u32>) -> (r: Option<Pagination>)
    ensures
        ({
            let p = match page {
                Some(v) => v as int,
                None => DEFAULT_PAGE as int,
            };
            let n = match per_page {
                Some(v) => v as int,
                None => DEFAULT_PER_PAGE as int,
            };
            if p == 0 {
                r is None
            } else {
                r matches Some(w) && w.limit == n && w.offset == (p - 1) * n
            }
        }),
{
    let p: u32 = match page {
        Some(v) => v,
        None => DEFAULT_PAGE,
    };
    let n: u32 = match per_page {
        Some(v) => v,
        None => DEFAULT_PER_PAGE,
    };
    if p == 0 {
        return None;
    }
    let skipped: u64 = (p - 1) as u64;
    assert(skipped * (n as u64) <= 0xffff_ffff * 0xffff_ffff) by (nonlinear_arith)
        requires
            skipped <= 0xffff_ffff,
            n <= 0xffff_ffff,
    ;
    Some(Pagination { limit: n as u64, offset: skipped * (n as u64) })
}

/// Issues a card under a fresh random id at the current time. A request
/// with a positive balance and validity period always succeeds, and the card
/// starts unaccepted and active, its balance equal to its initial balance;
/// any other request is refused for its first invalid field.
pub fn issue_gift_card(dto: CreateGiftCardDto) -> (r: Result<GiftCard, LedgerError>)
    ensures
        dto.balance <= 0 ==> r == Err::<GiftCard, LedgerError>(LedgerError::NonPositiveBalance),
        dto.balance > 0 && dto.expiration_days <= 0 ==> r == Err::<GiftCard, LedgerError>(
            LedgerError::NonPositiveExpiration,
        ),
        dto.balance > 0 && dto.expiration_days > 0 ==> r is Ok,
        r matches Ok(card) ==> {
            &&& card@.wf()
            &&& card@.balance == dto.balance
            &&& card@.initial_balance == dto.balance
            &&& !card@.is_accepted
            &&& card@.is_active
            &&& card@.issuer_name == dto.issuer_name@
            &&& card@.recipient_name == dto.recipient_name@
            &&& card@.recipient_phone == dto.recipient_phone@
            &&& card@.created_at >= 0
            &&& card@.updated_at == card@.created_at
            &&& card@.expiration_date == card@.created_at + dto.expiration_days * 86400
        },
{
    let id = fresh_uuid();
    let now = now_seconds();
    assert(dto.expiration_days * 86400 <= 0x7fff_ffff * 86400) by (nonlinear_arith)
        requires
            dto.expiration_days <= 0x7fff_ffff,
    ;
    issue(dto, id, now)
}

/// Accepts a card at the current time. Whatever the time, the outcome is
/// the one the acceptance rules give for it: the first failed check as the
/// error, with the card unchanged, or else the card accepted at that time.
pub fn accept_gift_card(card: &mut GiftCard, recipient_phone: &String) -> (r: Result<
    (),
    LedgerError,
>)
    ensures
        exists|now: int|
            0 <= now && #[trigger] accept_check(old(card)@, recipient_phone@, now) == match r {
                Ok(_) => None::<LedgerError>,
                Err(e) => Some(e),
            } && (r is Ok ==> final(card)@ == accepted(old(card)@, now)),
        r is Err ==> final(card)@ == old(card)@,
        old(card)@.recipient_phone != recipient_phone@ ==> r == Err::<(), LedgerError>(
            LedgerError::PhoneMismatch,
        ),
        old(card)@.recipient_phone == recipient_phone@ && old(card)@.is_accepted ==> r == Err::<
            (),
            LedgerError,
        >(LedgerError::AlreadyAccepted),
{
    let now = now_seconds();
    accept(card, recipient_phone, now)
}

/// Redeems `amount` from a card at the current time, under a fresh random
/// transaction id. Whatever the time, the outcome is the one the redemption
/// rules give for it: the first failed check as the error, with the card
/// unchanged, or else the card debited at that time and the record of the
/// debit.
pub fn redeem_gift_card(card: &mut GiftCard, amount: i32, merchant: String) -> (r: Result<
    GiftCardTransaction,
    LedgerError,
>)
    ensures
        exists|now: int|
            0 <= now && #[trigger] redeem_check(old(card)@, amount as int, now) == match r {
                Ok(_) => None::<LedgerError>,
                Err(e) => Some(e),
            } && (r matches Ok(t) ==> final(card)@ == debited(old(card)@, amount as int, now)
                && t@.transaction_date == now),
        r is Err ==> final(card)@ == old(card)@,
        r matches Ok(t) ==> t@.gift_card_id == old(card)@.id && t@.amount == amount
            && t@.merchant == merchant@,
        !old(card)@.is_active ==> r == Err::<GiftCardTransaction, LedgerError>(
            LedgerError::Inactive,
        ),
        old(card)@.is_active && !old(card)@.is_accepted ==> r == Err::<
            GiftCardTransaction,
            LedgerError,
        >(LedgerError::NotAccepted),
        old(card)@.is_active && old(card)@.is_accepted && amount <= 0 ==> r is Err,
{
    let id = fresh_uuid();
    let now = now_seconds();
    redeem(card, amount, merchant, id, now)
}

} // verus!
