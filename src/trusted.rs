use vstd::prelude::*;

verus! {

/// Whether `regex::Regex::new` accepts a pattern.
pub uninterp spec fn regex_compiles(pattern: Seq<char>) -> bool;

/// Whether the compiled `pattern` matches somewhere in `haystack`, as
/// `regex::Regex::is_match` decides it.
pub uninterp spec fn regex_accepts(pattern: Seq<char>, haystack: Seq<char>) -> bool;

/// Relies on `regex::Regex::new`, which fails exactly on patterns it does
/// not accept, and on `regex::Regex::is_match` of the compiled pattern.
#[verifier::external_body]
pub(crate) fn regex_is_match(pattern: &str, haystack: &str) -> (r: Option<bool>)
    ensures
        r is Some <==> regex_compiles(pattern@),
        r matches Some(b) ==> b == regex_accepts(pattern@, haystack@),
{
    match regex::Regex::new(pattern) {
        Ok(re) => Some(re.is_match(haystack)),
        Err(_) => None,
    }
}

/// Relies on `String::push`: the character is appended at the end.
#[verifier::external_body]
pub(crate) fn push_char(s: &mut String, c: char)
    ensures
        final(s)@ == old(s)@.push(c),
{
    s.push(c)
}

/// The hyphenated lower-case text of a UUID, as `uuid::Uuid`'s `Display`
/// writes it.
pub uninterp spec fn uuid_hyphenated(id: u128) -> Seq<char>;

/// The UUID that `uuid::Uuid::parse_str` reads from a text, if any.
pub uninterp spec fn uuid_parsed(text: Seq<char>) -> Option<u128>;

/// Relies on `uuid::Uuid::from_u128` and the hyphenated `Display` of
/// `uuid::Uuid`: 32 hex digits in groups of 8-4-4-4-12, which
/// `uuid::Uuid::parse_str` reads back.
#[verifier::external_body]
pub(crate) fn uuid_text(id: u128) -> (r: String)
    ensures
        r@ == uuid_hyphenated(id),
        r@.len() == 36,
        uuid_parsed(r@) == Some(id),
{
    uuid::Uuid::from_u128(id).to_string()
}

/// Relies on `uuid::Uuid::parse_str` (and `uuid::Uuid::as_u128`).
#[verifier::external_body]
pub(crate) fn uuid_parse(text: &str) -> (r: Option<u128>)
    ensures
        r == uuid_parsed(text@),
{
    match uuid::Uuid::parse_str(text) {
        Ok(u) => Some(u.as_u128()),
        Err(_) => None,
    }
}

/// Relies on `uuid::Uuid::new_v4`: a random identifier, of which nothing is
/// promised.
#[verifier::external_body]
pub(crate) fn fresh_uuid() -> (r: u128) {
    uuid::Uuid::new_v4().as_u128()
}

/// Relies on `chrono::Utc::now` and `chrono::DateTime::timestamp`: the
/// current time in seconds since the Unix epoch. `Utc::now` panics on a
/// clock before the epoch and stays within chrono's date range (years up to
/// 262142), so the value is non-negative and far below the bound stated.
#[verifier::external_body]
pub(crate) fn now_seconds() -> (r: i64)
    ensures
        0 <= r <= 0x7fff_ffff_ffff_ffff - 0x7fff_ffff * 86400,
{
    chrono::Utc::now().timestamp()
}

/// The SVG document in which the `qrcode` crate draws the QR code of
/// `content`, at least `min_size` pixels square, in the given colours.
pub uninterp spec fn qr_svg_of(content: Seq<char>, min_size: u32, dark: Seq<char>, light: Seq<char>) -> Seq<char>;

/// Relies on `qrcode::QrCode::new`, which fails only when the content does
/// not fit a QR code (at level M a version-40 code holds 2331 bytes, far
/// more than 100 characters of at most 4 bytes each), and on its SVG
/// renderer, whose `min_dimensions` adds the size to the module count in
/// `u32` and so is kept to sizes well below overflow.
#[verifier::external_body]
pub(crate) fn qr_svg(content: &str, min_size: u32, dark: &str, light: &str) -> (r: Option<String>)
    requires
        min_size <= 100_000,
    ensures
        content@.len() <= 100 ==> r is Some,
        r matches Some(svg) ==> svg@ == qr_svg_of(content@, min_size, dark@, light@),
{
    match qrcode::QrCode::new(content) {
        Ok(code) => Some(
            code.render::<qrcode::render::svg::Color>()
                .min_dimensions(min_size, min_size)
                .dark_color(qrcode::render::svg::Color(dark))
                .light_color(qrcode::render::svg::Color(light))
                .build(),
        ),
        Err(_) => None,
    }
}

/// The standard (padded) base64 encoding of the UTF-8 bytes of a text.
pub uninterp spec fn base64_of(text: Seq<char>) -> Seq<char>;

/// Relies on `base64::Engine::encode` of `base64::engine::general_purpose::STANDARD`.
#[verifier::external_body]
pub(crate) fn base64_encode(text: &str) -> (r: String)
    ensures
        r@ == base64_of(text@),
        text@.len() == 0 ==> r@.len() == 0,
{
    base64::Engine::encode(&base64::engine::general_purpose::STANDARD, text)
}

/// Whether a character has the Unicode `White_Space` property.
pub uninterp spec fn white_space(c: char) -> bool;

/// Relies on `char::is_whitespace`, which tests the Unicode `White_Space`
/// property; the ASCII space is one of them.
#[verifier::external_body]
pub(crate) fn is_white_space(c: char) -> (r: bool)
    ensures
        r == white_space(c),
        c == ' ' ==> r,
{
    c.is_whitespace()
}

} // verus!
