use vstd::prelude::*;

verus! {

/// A gift card as it is stored. Identifiers are 128-bit UUID values, times
/// are seconds since the Unix epoch and money is in minor currency units.
#[derive(Debug, Clone)]
pub struct GiftCard {
    pub id: u128,
    pub issuer_name: String,
    pub recipient_name: String,
    pub recipient_phone: String,
    pub balance: i32,
    pub initial_balance: i32,
    pub expiration_date: i64,
    pub is_accepted: bool,
    pub is_active: bool,
    pub created_at: i64,
    pub updated_at: i64,
}

/// The mathematical value of a [`GiftCard`].
pub struct GiftCardView {
    pub id: u128,
    pub issuer_name: Seq<char>,
    pub recipient_name: Seq<char>,
    pub recipient_phone: Seq<char>,
    pub balance: int,
    pub initial_balance: int,
    pub expiration_date: int,
    pub is_accepted: bool,
    pub is_active: bool,
    pub created_at: int,
    pub updated_at: int,
}

impl View for GiftCard {
    type V = GiftCardView;

    open spec fn view(&self) -> GiftCardView {
        GiftCardView {
            id: self.id,
            issuer_name: self.issuer_name@,
            recipient_name: self.recipient_name@,
            recipient_phone: self.recipient_phone@,
            balance: self.balance as int,
            initial_balance: self.initial_balance as int,
            expiration_date: self.expiration_date as int,
            is_accepted: self.is_accepted,
            is_active: self.is_active,
            created_at: self.created_at as int,
            updated_at: self.updated_at as int,
        }
    }
}

impl GiftCardView {
    /// The card invariants: the balance lies between zero and the initial
    /// balance, and an active card still holds money.
    pub open spec fn wf(self) -> bool {
        &&& 0 <= self.balance <= self.initial_balance
        &&& self.is_active ==> self.balance > 0
    }
}

/// One debit of a card; written once, never changed.
#[derive(Debug, Clone)]
pub struct GiftCardTransaction {
    pub id: u128,
    pub gift_card_id: u128,
    pub amount: i32,
    pub merchant: String,
    pub transaction_date: i64,
}

/// The mathematical value of a [`GiftCardTransaction`].
pub struct GiftCardTransactionView {
    pub id: u128,
    pub gift_card_id: u128,
    pub amount: int,
    pub merchant: Seq<char>,
    pub transaction_date: int,
}

impl View for GiftCardTransaction {
    type V = GiftCardTransactionView;

    open spec fn view(&self) -> GiftCardTransactionView {
        GiftCardTransactionView {
            id: self.id,
            gift_card_id: self.gift_card_id,
            amount: self.amount as int,
            merchant: self.merchant@,
            transaction_date: self.transaction_date as int,
        }
    }
}

/// The request to issue a card.
#[derive(Debug, Clone)]
pub struct CreateGiftCardDto {
    pub issuer_name: String,
    pub recipient_name: String,
    pub recipient_phone: String,
    pub balance: i32,
    pub expiration_days: i32,
}

/// The request to accept a card, with the phone number that proves the
/// caller is the recipient.
#[derive(Debug, Clone)]
pub struct AcceptGiftCardDto {
    pub gift_card_id: u128,
    pub recipient_phone: String,
}

/// The request to pay with a card.
#[derive(Debug, Clone)]
pub struct UseGiftCardDto {
    pub gift_card_id: u128,
    pub amount: i32,
    pub merchant: String,
}

/// A card as it is shown to clients, with an optional QR code image.
#[derive(Debug, Clone)]
pub struct GiftCardResponseDto {
    pub id: u128,
    pub issuer_name: String,
    pub recipient_name: String,
    pub recipient_phone: String,
    pub balance: i32,
    pub initial_balance: i32,
    pub expiration_date: i64,
    pub is_accepted: bool,
    pub is_active: bool,
    pub qr_code: Option<String>,
    pub created_at: i64,
}

/// What a scan of a card's QR code reveals.
#[derive(Debug, Clone, Copy, PartialEq, Eq, Structural)]
pub struct GiftCardVerificationDto {
    pub id: u128,
    pub balance: i32,
    pub is_active: bool,
    pub is_accepted: bool,
    pub expiration_date: i64,
}

/// The data of a ledger transaction before it is given an id and a time.
#[derive(Debug, Clone)]
pub struct CreateTransactionDto {
    pub gift_card_id: u128,
    pub amount: i32,
    pub merchant: String,
}

/// The response form of a card, carrying the given QR code.
pub fn to_gift_card_response_dto(gift_card: GiftCard, qr_code: Option<String>) -> (r:
    GiftCardResponseDto)
    ensures
        r.id == gift_card.id,
        r.issuer_name@ == gift_card.issuer_name@,
        r.recipient_name@ == gift_card.recipient_name@,
        r.recipient_phone@ == gift_card.recipient_phone@,
        r.balance == gift_card.balance,
        r.initial_balance == gift_card.initial_balance,
        r.expiration_date == gift_card.expiration_date,
        r.is_accepted == gift_card.is_accepted,
        r.is_active == gift_card.is_active,
        r.qr_code == qr_code,
        r.created_at == gift_card.created_at,
{
    GiftCardResponseDto {
        id: gift_card.id,
        issuer_name: gift_card.issuer_name,
        recipient_name: gift_card.recipient_name,
        recipient_phone: gift_card.recipient_phone,
        balance: gift_card.balance,
        initial_balance: gift_card.initial_balance,
        expiration_date: gift_card.expiration_date,
        is_accepted: gift_card.is_accepted,
        is_active: gift_card.is_active,
        qr_code,
        created_at: gift_card.created_at,
    }
}

/// The verification form of a card.
pub fn to_verification_dto(gift_card: &GiftCard) -> (r: GiftCardVerificationDto)
    ensures
        r == (GiftCardVerificationDto {
            id: gift_card.id,
            balance: gift_card.balance,
            is_active: gift_card.is_active,
            is_accepted: gift_card.is_accepted,
            expiration_date: gift_card.expiration_date,
        }),
{
    GiftCardVerificationDto {
        id: gift_card.id,
        balance: gift_card.balance,
        is_active: gift_card.is_active,
        is_accepted: gift_card.is_accepted,
        expiration_date: gift_card.expiration_date,
    }
}

} // verus!
