use vstd::prelude::*;
use crate::model::{
    CreateGiftCardDto, GiftCard, GiftCardTransaction, GiftCardTransactionView, GiftCardView,
};

verus! {

/// Seconds in one day, the unit of a card's validity period.
pub const SECONDS_PER_DAY: i64 = 86400;

/// Why the ledger refused an operation. Each of these is a validation
/// failure on the client's side.
#[derive(Debug, Clone, Copy, PartialEq, Eq, Structural)]
pub enum LedgerError {
    NonPositiveBalance,
    NonPositiveExpiration,
    ExpirationOutOfRange,
    PhoneMismatch,
    AlreadyAccepted,
    Expired,
    Inactive,
    NotAccepted,
    NonPositiveAmount,
    InsufficientBalance,
}

/// A card can no longer be redeemed once its expiration time is not in the
/// future.
pub open spec fn is_expired(card: GiftCardView, now: int) -> bool {
    card.expiration_date <= now
}

/// The largest `i64`, the last second a card can expire at.
pub open spec fn max_time() -> int {
    0x7fff_ffff_ffff_ffff
}

/// The first failed check of an issuance, if any.
pub open spec fn issue_check(balance: int, expiration_days: int, now: int) -> Option<LedgerError> {
    if balance <= 0 {
        Some(LedgerError::NonPositiveBalance)
    } else if expiration_days <= 0 {
        Some(LedgerError::NonPositiveExpiration)
    } else if now + expiration_days * SECONDS_PER_DAY > max_time() {
        Some(LedgerError::ExpirationOutOfRange)
    } else {
        None
    }
}

/// The card that a successful issuance creates.
pub open spec fn issued(
    id: u128,
    issuer_name: Seq<char>,
    recipient_name: Seq<char>,
    recipient_phone: Seq<char>,
    balance: int,
    expiration_days: int,
    now: int,
) -> GiftCardView {
    GiftCardView {
        id,
        issuer_name,
        recipient_name,
        recipient_phone,
        balance,
        initial_balance: balance,
        expiration_date: now + expiration_days * SECONDS_PER_DAY,
        is_accepted: false,
        is_active: true,
        created_at: now,
        updated_at: now,
    }
}

/// The first failed check of an acceptance, in the order they are made. A
/// card may still be accepted in its expiration second.
pub open spec fn accept_check(card: GiftCardView, phone: Seq<char>, now: int) -> Option<
    LedgerError,
> {
    if card.recipient_phone != phone {
        Some(LedgerError::PhoneMismatch)
    } else if card.is_accepted {
        Some(LedgerError::AlreadyAccepted)
    } else if card.expiration_date < now {
        Some(LedgerError::Expired)
    } else {
        None
    }
}

/// The card after a successful acceptance.
pub open spec fn accepted(card: GiftCardView, now: int) -> GiftCardView {
    GiftCardView { is_accepted: true, updated_at: now, ..card }
}

/// The first failed check of a redemption, in the order they are made.
pub open spec fn redeem_check(card: GiftCardView, amount: int, now: int) -> Option<LedgerError> {
    if !card.is_active {
        Some(LedgerError::Inactive)
    } else if !card.is_accepted {
        Some(LedgerError::NotAccepted)
    } else if is_expired(card, now) {
        Some(LedgerError::Expired)
    } else if amount <= 0 {
        Some(LedgerError::NonPositiveAmount)
    } else if card.balance < amount {
        Some(LedgerError::InsufficientBalance)
    } else {
        None
    }
}

/// The card after a successful debit: the card deactivates when it is
/// exhausted.
pub open spec fn debited(card: GiftCardView, amount: int, now: int) -> GiftCardView {
    GiftCardView {
        balance: card.balance - amount,
        is_active: card.balance - amount > 0,
        updated_at: now,
        ..card
    }
}

/// Creates a card from an issuance request, with the given fresh id at time
/// `now`. The card starts unaccepted and active with its full balance.
pub fn issue(dto: CreateGiftCardDto, id: u128, now: i64) -> (r: Result<GiftCard, LedgerError>)
    ensures
        match issue_check(dto.balance as int, dto.expiration_days as int, now as int) {
            Some(e) => r == Err::<GiftCard, LedgerError>(e),
            None => r matches Ok(card) && card@ == issued(
                id,
                dto.issuer_name@,
                dto.recipient_name@,
                dto.recipient_phone@,
                dto.balance as int,
                dto.expiration_days as int,
                now as int,
            ),
        },
{
    if dto.balance <= 0 {
        return Err(LedgerError::NonPositiveBalance);
    }
    if dto.expiration_days <= 0 {
        return Err(LedgerError::NonPositiveExpiration);
    }
    let validity: i64 = (dto.expiration_days as i64) * SECONDS_PER_DAY;
    let expiration_date = match now.checked_add(validity) {
        Some(t) => t,
        None => return Err(LedgerError::ExpirationOutOfRange),
    };
    Ok(
        GiftCard {
            id,
            issuer_name: dto.issuer_name,
            recipient_name: dto.recipient_name,
            recipient_phone: dto.recipient_phone,
            balance: dto.balance,
            initial_balance: dto.balance,
            expiration_date,
            is_accepted: false,
            is_active: true,
            created_at: now,
            updated_at: now,
        },
    )
}

/// Accepts a card on behalf of the recipient whose phone number is given.
/// On failure the card is left as it was.
pub fn accept(card: &mut GiftCard, recipient_phone: &String, now: i64) -> (r: Result<
    (),
    LedgerError,
>)
    ensures
        match accept_check(old(card)@, recipient_phone@, now as int) {
            Some(e) => r == Err::<(), LedgerError>(e) && final(card)@ == old(card)@,
            None => r is Ok && final(card)@ == accepted(old(card)@, now as int),
        },
{
    if card.recipient_phone != *recipient_phone {
        return Err(LedgerError::PhoneMismatch);
    }
    if card.is_accepted {
        return Err(LedgerError::AlreadyAccepted);
    }
    if card.expiration_date < now {
        return Err(LedgerError::Expired);
    }
    card.is_accepted = true;
    card.updated_at = now;
    Ok(())
}

/// Debits `amount` from a card on behalf of `merchant`, and returns the
/// transaction record (with the given fresh id) that backs the debit. On
/// failure the card is left as it was.
pub fn redeem(
    card: &mut GiftCard,
    amount: i32,
    merchant: String,
    transaction_id: u128,
    now: i64,
) -> (r: Result<GiftCardTransaction, LedgerError>)
    ensures
        match redeem_check(old(card)@, amount as int, now as int) {
            Some(e) => r == Err::<GiftCardTransaction, LedgerError>(e) && final(card)@ == old(
                card,
            )@,
            None => r matches Ok(t) && final(card)@ == debited(old(card)@, amount as int, now as int)
                && t@ == (GiftCardTransactionView {
                id: transaction_id,
                gift_card_id: old(card).id,
                amount: amount as int,
                merchant: merchant@,
                transaction_date: now as int,
            }),
        },
{
    if !card.is_active {
        return Err(LedgerError::Inactive);
    }
    if !card.is_accepted {
        return Err(LedgerError::NotAccepted);
    }
    if card.expiration_date <= now {
        return Err(LedgerError::Expired);
    }
    if amount <= 0 {
        return Err(LedgerError::NonPositiveAmount);
    }
    if card.balance < amount {
        return Err(LedgerError::InsufficientBalance);
    }
    let new_balance: i32 = card.balance - amount;
    card.balance = new_balance;
    card.is_active = new_balance > 0;
    card.updated_at = now;
    Ok(
        GiftCardTransaction {
            id: transaction_id,
            gift_card_id: card.id,
            amount,
            merchant,
            transaction_date: now,
        },
    )
}

/// The sum of the amounts of a transaction log.
pub open spec fn total_debited(log: Seq<GiftCardTransactionView>) -> int
    decreases log.len(),
{
    if log.len() == 0 {
        0
    } else {
        total_debited(log.drop_last()) + log.last().amount
    }
}

/// A card with its transaction log, as values.
pub struct LedgerView {
    pub card: GiftCardView,
    pub log: Seq<GiftCardTransactionView>,
}

impl LedgerView {
    /// The ledger invariants: the card invariants hold, every record belongs
    /// to the card and debits a positive amount, and the balance is the
    /// initial balance less everything the log debited.
    pub open spec fn wf(self) -> bool {
        &&& self.card.wf()
        &&& self.card.balance == self.card.initial_balance - total_debited(self.log)
        &&& forall|i: int|
            0 <= i < self.log.len() ==> (#[trigger] self.log[i]).gift_card_id == self.card.id
                && self.log[i].amount > 0
    }
}

/// One redemption request, as values.
pub struct RedeemRequest {
    pub amount: int,
    pub merchant: Seq<char>,
    pub transaction_id: u128,
    pub now: int,
}

/// The ledger after one redemption request: unchanged when a check fails,
/// else the debited card with one more record.
pub open spec fn redeem_step(l: LedgerView, q: RedeemRequest) -> LedgerView {
    if redeem_check(l.card, q.amount, q.now) is Some {
        l
    } else {
        LedgerView {
            card: debited(l.card, q.amount, q.now),
            log: l.log.push(
                GiftCardTransactionView {
                    id: q.transaction_id,
                    gift_card_id: l.card.id,
                    amount: q.amount,
                    merchant: q.merchant,
                    transaction_date: q.now,
                },
            ),
        }
    }
}

/// The ledger after a sequence of redemption requests, in order.
pub open spec fn replay(l: LedgerView, qs: Seq<RedeemRequest>) -> LedgerView
    decreases qs.len(),
{
    if qs.len() == 0 {
        l
    } else {
        redeem_step(replay(l, qs.drop_last()), qs.last())
    }
}

/// One redemption keeps the ledger invariants and never raises the
/// balance.
pub proof fn lemma_redeem_step(l: LedgerView, q: RedeemRequest)
    requires
        l.wf(),
    ensures
        redeem_step(l, q).wf(),
        redeem_step(l, q).card.balance <= l.card.balance,
{
    let r = redeem_step(l, q);
    if redeem_check(l.card, q.amount, q.now) is None {
        assert(r.log.drop_last() =~= l.log);
        assert forall|i: int| 0 <= i < r.log.len() implies (#[trigger] r.log[i]).gift_card_id
            == r.card.id && r.log[i].amount > 0 by {
            if i < l.log.len() {
                assert(r.log[i] == l.log[i]);
            }
        }
    }
}

/// Over any sequence of redemptions on one card, the balance never rises
/// from one request to the next and always equals the initial balance less
/// the sum of the recorded amounts.
pub proof fn lemma_redemption_sequence(l: LedgerView, qs: Seq<RedeemRequest>)
    requires
        l.wf(),
    ensures
        forall|i: int|
            0 <= i <= qs.len() ==> (#[trigger] replay(l, qs.take(i))).wf()
                && replay(l, qs.take(i)).card.balance == replay(
                l,
                qs.take(i),
            ).card.initial_balance - total_debited(replay(l, qs.take(i)).log),
        forall|i: int|
            0 < i <= qs.len() ==> (#[trigger] replay(l, qs.take(i))).card.balance <= replay(
                l,
                qs.take(i - 1),
            ).card.balance,
        replay(l, qs).card.balance <= l.card.balance,
    decreases qs.len(),
{
    if qs.len() > 0 {
        let prev = qs.drop_last();
        lemma_redemption_sequence(l, prev);
        assert forall|i: int| 0 <= i <= prev.len() implies qs.take(i) == prev.take(i) by {
            assert(qs.take(i) =~= prev.take(i));
        }
        assert(qs.take(qs.len() as int) =~= qs);
        assert(qs.take(prev.len() as int) =~= prev);
        assert(prev.take(prev.len() as int) =~= prev);
        lemma_redeem_step(replay(l, prev), qs.last());
    } else {
        assert(qs.take(0) =~= qs);
    }
}

/// Two redemptions race for one card, each fitting the balance but not
/// both together. The card lock orders them: whichever runs first
/// succeeds, the second sees the debited card and is refused, and the
/// balance stays non-negative.
pub proof fn lemma_concurrent_redemptions(card: GiftCardView, a1: int, a2: int, now: int)
    requires
        card.wf(),
        redeem_check(card, a1, now) is None,
        redeem_check(card, a2, now) is None,
        a1 + a2 > card.balance,
    ensures
        redeem_check(debited(card, a1, now), a2, now) is Some,
        redeem_check(debited(card, a2, now), a1, now) is Some,
        debited(card, a1, now).balance >= 0,
        debited(card, a2, now).balance >= 0,
        debited(card, a1, now).wf(),
        debited(card, a2, now).wf(),
{
}

/// Accepting with a phone number other than the recipient's is refused and
/// leaves the card unaccepted; once a card has been accepted, accepting it
/// again is refused whatever phone number is given.
pub proof fn lemma_accept_once(card: GiftCardView, phone: Seq<char>, again: Seq<char>, now: int, later: int)
    ensures
        phone != card.recipient_phone ==> accept_check(card, phone, now) == Some(
            LedgerError::PhoneMismatch,
        ),
        accept_check(card, phone, now) is None ==> accept_check(
            accepted(card, now),
            again,
            later,
        ) is Some,
        accept_check(card, phone, now) is None ==> accepted(card, now).is_accepted,
{
}

/// A card past its expiration time cannot be redeemed, whatever its
/// balance and amount.
pub proof fn lemma_expired_not_redeemable(card: GiftCardView, amount: int, now: int)
    requires
        is_expired(card, now),
    ensures
        redeem_check(card, amount, now) is Some,
{
}

/// No lifecycle step undoes an acceptance or raises a balance, and none
/// touches the card's identity, recipient, initial balance or expiration.
/// A successful debit strictly lowers the balance, and one that empties the
/// card deactivates it.
pub proof fn lemma_lifecycle_steps(card: GiftCardView, phone: Seq<char>, amount: int, now: int)
    requires
        card.wf(),
    ensures
        accept_check(card, phone, now) is None ==> {
            let c = accepted(card, now);
            &&& c.is_accepted
            &&& c.wf()
            &&& c.balance == card.balance
            &&& c.id == card.id && c.recipient_phone == card.recipient_phone
            &&& c.initial_balance == card.initial_balance
            &&& c.expiration_date == card.expiration_date
        },
        redeem_check(card, amount, now) is None ==> {
            let c = debited(card, amount, now);
            &&& c.is_accepted == card.is_accepted
            &&& c.wf()
            &&& c.balance < card.balance
            &&& (c.balance == 0 ==> !c.is_active)
            &&& c.id == card.id && c.recipient_phone == card.recipient_phone
            &&& c.initial_balance == card.initial_balance
            &&& c.expiration_date == card.expiration_date
        },
{
}

/// A card and its transaction log, kept together so that every debit of
/// the card is backed by exactly one record.
#[derive(Debug, Clone)]
pub struct CardLedger {
    pub card: GiftCard,
    pub transactions: Vec<GiftCardTransaction>,
}

impl View for CardLedger {
    type V = LedgerView;

    open spec fn view(&self) -> LedgerView {
        LedgerView {
            card: self.card@,
            log: self.transactions@.map_values(|t: GiftCardTransaction| t@),
        }
    }
}

impl CardLedger {
    /// Issues a card with an empty log.
    pub fn open(dto: CreateGiftCardDto, id: u128, now: i64) -> (r: Result<CardLedger, LedgerError>)
        ensures
            match issue_check(dto.balance as int, dto.expiration_days as int, now as int) {
                Some(e) => r == Err::<CardLedger, LedgerError>(e),
                None => r matches Ok(l) && l@.wf() && l@.log.len() == 0 && l@.card == issued(
                    id,
                    dto.issuer_name@,
                    dto.recipient_name@,
                    dto.recipient_phone@,
                    dto.balance as int,
                    dto.expiration_days as int,
                    now as int,
                ),
            },
    {
        let card = issue(dto, id, now)?;
        let l = CardLedger { card, transactions: Vec::new() };
        assert(l@.log =~= Seq::<GiftCardTransactionView>::empty());
        Ok(l)
    }

    /// Accepts the card; the log is not touched.
    pub fn accept(&mut self, recipient_phone: &String, now: i64) -> (r: Result<(), LedgerError>)
        requires
            old(self)@.wf(),
        ensures
            final(self)@.wf(),
            final(self)@.log == old(self)@.log,
            match accept_check(old(self)@.card, recipient_phone@, now as int) {
                Some(e) => r == Err::<(), LedgerError>(e) && final(self)@ == old(self)@,
                None => r is Ok && final(self)@.card == accepted(old(self)@.card, now as int),
            },
    {
        accept(&mut self.card, recipient_phone, now)
    }

    /// Redeems `amount` from the card and appends the record of the debit;
    /// when a check fails, neither the card nor the log changes.
    pub fn redeem(&mut self, amount: i32, merchant: String, transaction_id: u128, now: i64) -> (r:
        Result<(), LedgerError>)
        requires
            old(self)@.wf(),
        ensures
            final(self)@.wf(),
            final(self)@ == redeem_step(
                old(self)@,
                RedeemRequest {
                    amount: amount as int,
                    merchant: merchant@,
                    transaction_id,
                    now: now as int,
                },
            ),
            match redeem_check(old(self)@.card, amount as int, now as int) {
                Some(e) => r == Err::<(), LedgerError>(e),
                None => r is Ok,
            },
    {
        let ghost q = RedeemRequest {
            amount: amount as int,
            merchant: merchant@,
            transaction_id,
            now: now as int,
        };
        proof {
            lemma_redeem_step(self@, q);
        }
        let t = redeem(&mut self.card, amount, merchant, transaction_id, now)?;
        self.transactions.push(t);
        assert(self@.log =~= redeem_step(old(self)@, q).log);
        Ok(())
    }

    /// The sum of the amounts in the log.
    pub fn total_debited(&self) -> (r: i64)
        requires
            self@.wf(),
        ensures
            r == total_debited(self@.log),
    {
        let mut sum: i64 = 0;
        let mut i: usize = 0;
        while i < self.transactions.len()
            invariant
                self@.wf(),
                0 <= i <= self.transactions@.len(),
                sum == total_debited(self@.log.take(i as int)),
                0 <= sum <= total_debited(self@.log),
            decreases self.transactions@.len() - i,
        {
            proof {
                assert(self@.log.take(i as int + 1).drop_last() =~= self@.log.take(i as int));
                lemma_prefix_sum(self@.log, i as int + 1);
            }
            sum = sum + self.transactions[i].amount as i64;
            i = i + 1;
        }
        assert(self@.log.take(i as int) =~= self@.log);
        sum
    }
}

/// A prefix of a log of positive amounts debits no more than the whole log.
proof fn lemma_prefix_sum(log: Seq<GiftCardTransactionView>, n: int)
    requires
        0 <= n <= log.len(),
        forall|i: int| 0 <= i < log.len() ==> (#[trigger] log[i]).amount > 0,
    ensures
        total_debited(log.take(n)) <= total_debited(log),
        total_debited(log.take(n)) >= 0,
    decreases log.len(),
{
    if n == log.len() {
        assert(log.take(n) =~= log);
        lemma_sum_nonneg(log);
    } else {
        let prev = log.drop_last();
        assert(log.take(n) =~= prev.take(n));
        lemma_prefix_sum(prev, n);
    }
}

proof fn lemma_sum_nonneg(log: Seq<GiftCardTransactionView>)
    requires
        forall|i: int| 0 <= i < log.len() ==> (#[trigger] log[i]).amount > 0,
    ensures
        total_debited(log) >= 0,
    decreases log.len(),
{
    if log.len() > 0 {
        let prev = log.drop_last();
        assert forall|i: int| 0 <= i < prev.len() implies (#[trigger] prev[i]).amount > 0 by {
            assert(prev[i] == log[i]);
        }
        lemma_sum_nonneg(prev);
    }
}

} // verus!
