use vstd::prelude::*;
use vstd::string::*;
use crate::trusted::{
    base64_encode, base64_of, qr_svg, qr_svg_of, uuid_hyphenated, uuid_parse, uuid_parsed,
    uuid_text,
};

verus! {

/// The side, in pixels, under which a QR code image is not drawn.
pub const QR_MIN_SIZE: u32 = 200;

/// The text a card's QR code carries.
pub open spec fn qr_content_of(id: u128) -> Seq<char> {
    "giftcard:"@ + uuid_hyphenated(id)
}

/// The data URL of a base64-encoded SVG image.
pub open spec fn svg_data_url_of(svg: Seq<char>) -> Seq<char> {
    "data:image/svg+xml;base64,"@ + base64_of(svg)
}

/// The text of a card id.
pub fn card_id_text(id: u128) -> (r: String)
    ensures
        r@ == uuid_hyphenated(id),
        r@.len() == 36,
        uuid_parsed(r@) == Some(id),
{
    uuid_text(id)
}

/// Reads a card id from its text; `None` when the text is no UUID.
pub fn parse_card_id(text: &str) -> (r: Option<u128>)
    ensures
        r == uuid_parsed(text@),
{
    uuid_parse(text)
}

/// The text a card's QR code carries: `giftcard:` and the card id.
pub fn qr_content(id: u128) -> (r: String)
    ensures
        r@ == qr_content_of(id),
        r@.len() == 45,
{
    let mut s = String::from_str("giftcard:");
    let t = uuid_text(id);
    s.append(t.as_str());
    proof {
        reveal_strlit("giftcard:");
    }
    s
}

/// An SVG image as a base64 data URL.
pub fn svg_data_url(svg: &str) -> (r: String)
    ensures
        r@ == svg_data_url_of(svg@),
{
    let mut s = String::from_str("data:image/svg+xml;base64,");
    let e = base64_encode(svg);
    s.append(e.as_str());
    s
}

/// The QR code of a card, black on white, as a base64 SVG data URL. The
/// content is short enough that the code is always drawn.
pub fn generate_gift_card_qr(id: u128) -> (r: Option<String>)
    ensures
        r is Some,
        r matches Some(url) ==> url@ == svg_data_url_of(
            qr_svg_of(qr_content_of(id), QR_MIN_SIZE, "#000000"@, "#ffffff"@),
        ),
{
    let content = qr_content(id);
    match qr_svg(content.as_str(), QR_MIN_SIZE, "#000000", "#ffffff") {
        Some(svg) => Some(svg_data_url(svg.as_str())),
        None => None,
    }
}

} // verus!
